//! Text operations on program log lines: prefix removal and trimming from std,
//! and base64 decoding from the `base64` crate.
use vstd::prelude::*;
use base64::Engine;

verus! {

/// What the standard base64 engine's `decode` returns for the text: the
/// decoded bytes, or `None` when the text is not valid padded base64.
pub uninterp spec fn spec_base64_decode(s: Seq<char>) -> Option<Seq<u8>>;

/// `char::is_whitespace`: the character has the Unicode `White_Space`
/// property.
pub open spec fn is_char_whitespace(c: char) -> bool {
    let u = c as u32;
    ||| 0x09 <= u && u <= 0x0d
    ||| u == 0x20
    ||| u == 0x85
    ||| u == 0xa0
    ||| u == 0x1680
    ||| 0x2000 <= u && u <= 0x200a
    ||| u == 0x2028
    ||| u == 0x2029
    ||| u == 0x202f
    ||| u == 0x205f
    ||| u == 0x3000
}

/// The text with its leading white space removed.
pub open spec fn trim_start(s: Seq<char>) -> Seq<char>
    decreases s.len(),
{
    if s.len() > 0 && is_char_whitespace(s[0]) {
        trim_start(s.drop_first())
    } else {
        s
    }
}

/// The text with its trailing white space removed.
pub open spec fn trim_end(s: Seq<char>) -> Seq<char>
    decreases s.len(),
{
    if s.len() > 0 && is_char_whitespace(s.last()) {
        trim_end(s.drop_last())
    } else {
        s
    }
}

/// `str::trim`: the text with leading and trailing white space removed.
pub open spec fn spec_trim(s: Seq<char>) -> Seq<char> {
    trim_end(trim_start(s))
}

/// Every character of the text is white space.
pub open spec fn all_whitespace(s: Seq<char>) -> bool {
    forall|i: int| 0 <= i < s.len() ==> is_char_whitespace(#[trigger] s[i])
}

/// Leading white space is dropped by `trim_start` whatever follows it.
pub proof fn lemma_trim_start_skips(v: Seq<char>, x: Seq<char>)
    requires
        all_whitespace(v),
    ensures
        trim_start(v + x) == trim_start(x),
    decreases v.len(),
{
    if v.len() > 0 {
        assert(is_char_whitespace(v[0]));
        assert((v + x)[0] == v[0]);
        assert((v + x).drop_first() =~= v.drop_first() + x);
        lemma_trim_start_skips(v.drop_first(), x);
    } else {
        assert(v + x =~= x);
    }
}

/// Trailing white space is dropped by `trim_end` whatever precedes it.
pub proof fn lemma_trim_end_skips(x: Seq<char>, w: Seq<char>)
    requires
        all_whitespace(w),
    ensures
        trim_end(x + w) == trim_end(x),
    decreases w.len(),
{
    if w.len() > 0 {
        assert(is_char_whitespace(w.last()));
        assert((x + w).last() == w.last());
        assert((x + w).drop_last() =~= x + w.drop_last());
        lemma_trim_end_skips(x, w.drop_last());
    } else {
        assert(x + w =~= x);
    }
}

/// Trimming text surrounded by white space gives the text back when it
/// neither starts nor ends with white space itself.
pub proof fn lemma_trim_surrounded(v: Seq<char>, t: Seq<char>, w: Seq<char>)
    requires
        all_whitespace(v),
        all_whitespace(w),
        no_edge_whitespace(t),
    ensures
        spec_trim(v + t + w) == t,
{
    assert(v + t + w =~= v + (t + w));
    lemma_trim_start_skips(v, t + w);
    if t.len() > 0 {
        assert((t + w)[0] == t[0]);
        assert(trim_start(t + w) == t + w);
        lemma_trim_end_skips(t, w);
    } else {
        assert(t + w =~= w);
        assert(w =~= w + Seq::<char>::empty());
        lemma_trim_start_skips(w, Seq::<char>::empty());
        assert(trim_start(Seq::<char>::empty()) == Seq::<char>::empty());
        assert(t =~= Seq::<char>::empty());
    }
}

/// The text neither starts nor ends with white space.
pub open spec fn no_edge_whitespace(s: Seq<char>) -> bool {
    s.len() > 0 ==> !is_char_whitespace(s[0]) && !is_char_whitespace(s.last())
}

/// A character of the standard base64 alphabet, padding included.
pub open spec fn is_base64_char(c: char) -> bool {
    let u = c as u32;
    ||| 0x41 <= u && u <= 0x5a
    ||| 0x61 <= u && u <= 0x7a
    ||| 0x30 <= u && u <= 0x39
    ||| u == 0x2b
    ||| u == 0x2f
    ||| u == 0x3d
}

/// Calls `str::strip_prefix`: the rest of `s` after `prefix` when `s` starts
/// with `prefix`, and `None` otherwise, as its documentation states.
#[verifier::external_body]
pub(crate) fn strip_prefix<'a>(s: &'a str, prefix: &str) -> (r: Option<&'a str>)
    ensures
        r is Some <==> (prefix@.len() <= s@.len() && s@.take(prefix@.len() as int) == prefix@),
        r matches Some(rest) ==> rest@ == s@.skip(prefix@.len() as int),
{
    s.strip_prefix(prefix)
}

/// Calls `str::trim`: as its documentation states, the text with leading and
/// trailing white space (characters with the Unicode `White_Space` property)
/// removed.
#[verifier::external_body]
pub(crate) fn trim<'a>(s: &'a str) -> (r: &'a str)
    ensures
        r@ == spec_trim(s@),
{
    s.trim()
}

/// Calls `base64::engine::general_purpose::STANDARD.decode` on the text. The
/// contract claims that the result is the named result of the decoding, with
/// the decoding error mapped to `None`.
#[verifier::external_body]
pub(crate) fn base64_decode(s: &str) -> (r: Option<Vec<u8>>)
    ensures
        match r {
            Some(bytes) => spec_base64_decode(s@) == Some(bytes@),
            None => spec_base64_decode(s@) is None,
        },
{
    base64::engine::general_purpose::STANDARD.decode(s).ok()
}

/// Calls `base64::engine::general_purpose::STANDARD.encode`. The contract
/// claims that the text is made of the standard alphabet and padding, and
/// that the same engine decodes it back to the bytes.
#[verifier::external_body]
pub(crate) fn base64_encode(bytes: &[u8]) -> (r: String)
    ensures
        forall|i: int| 0 <= i < r@.len() ==> is_base64_char(#[trigger] r@[i]),
        spec_base64_decode(r@) == Some(bytes@),
{
    base64::engine::general_purpose::STANDARD.encode(bytes)
}

/// Calls `String::push_str`: the text is appended.
#[verifier::external_body]
pub(crate) fn push_str(s: &mut String, t: &str)
    ensures
        final(s)@ == old(s)@ + t@,
{
    s.push_str(t);
}

} // verus!
