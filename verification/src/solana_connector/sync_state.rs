//! The stored synchronisation state: the last processed slot is kept as its
//! decimal text. Reading it back accepts what `u64`'s `FromStr` accepts (an
//! optional `+` and one or more ASCII digits whose value fits in a `u64`);
//! anything else, or nothing stored, reads as slot 0.
use vstd::prelude::*;

verus! {

/// The byte is an ASCII digit.
pub open spec fn is_digit(b: u8) -> bool {
    0x30 <= b <= 0x39
}

/// Every byte is an ASCII digit.
pub open spec fn all_digits(s: Seq<u8>) -> bool {
    forall|i: int| 0 <= i < s.len() ==> is_digit(#[trigger] s[i])
}

/// The value of a string of decimal digits.
pub open spec fn digits_value(s: Seq<u8>) -> nat
    decreases s.len(),
{
    if s.len() == 0 {
        0
    } else {
        digits_value(s.drop_last()) * 10 + (s.last() - 0x30) as nat
    }
}

/// The digits of a stored slot: an optional `+` sign removed.
pub open spec fn unsigned_digits(s: Seq<u8>) -> Seq<u8> {
    if s.len() > 0 && s[0] == 0x2b {
        s.drop_first()
    } else {
        s
    }
}

/// What the stored text reads as: its value when it is an optional `+` and
/// one or more digits whose value fits in a `u64`.
pub open spec fn spec_parse_u64(s: Seq<u8>) -> Option<u64> {
    let d = unsigned_digits(s);
    if d.len() > 0 && all_digits(d) && digits_value(d) <= u64::MAX {
        Some(digits_value(d) as u64)
    } else {
        None
    }
}

/// The value of a prefix never exceeds that of the whole.
proof fn lemma_digits_value_prefix(s: Seq<u8>, i: int)
    requires
        0 <= i <= s.len(),
        all_digits(s),
    ensures
        digits_value(s.take(i)) <= digits_value(s),
    decreases s.len() - i,
{
    if i < s.len() {
        lemma_digits_value_prefix(s, i + 1);
        assert(s.take(i + 1).drop_last() =~= s.take(i));
        assert(s.take(i + 1).last() == s[i]);
        assert(is_digit(s[i]));
        assert(digits_value(s.take(i + 1)) == digits_value(s.take(i)) * 10 + (s[i] - 0x30) as nat);
    } else {
        assert(s.take(i) =~= s);
    }
}

/// Reads a `u64` written in decimal, as `u64`'s `FromStr` does.
pub fn parse_u64(s: &[u8]) -> (r: Option<u64>)
    ensures
        r == spec_parse_u64(s@),
{
    let start: usize = if s.len() > 0 && s[0] == 0x2b { 1 } else { 0 };
    let ghost d = unsigned_digits(s@);
    assert(d =~= s@.skip(start as int));
    if start == s.len() {
        return None;
    }
    let mut value: u64 = 0;
    let mut i: usize = start;
    while i < s.len()
        invariant
            start <= i <= s@.len(),
            d == s@.skip(start as int),
            d == unsigned_digits(s@),
            all_digits(d.take(i - start)),
            value == digits_value(d.take(i - start)),
        decreases s@.len() - i,
    {
        let b = s[i];
        let ghost k = i - start;
        assert(d.take(k + 1).drop_last() =~= d.take(k));
        assert(d.take(k + 1).last() == b);
        assert(d[k as int] == b);
        if !(0x30u8 <= b && b <= 0x39u8) {
            assert(!is_digit(d[k as int]));
            assert(!all_digits(d));
            return None;
        }
        let digit = (b - 0x30u8) as u64;
        if value > (u64::MAX - digit) / 10 {
            proof {
                assert(digits_value(d.take(k + 1)) == value * 10 + digit);
                assert(value * 10 + digit > u64::MAX) by (nonlinear_arith)
                    requires
                        value > (u64::MAX - digit) / 10,
                        digit <= 9,
                ;
                if all_digits(d) {
                    lemma_digits_value_prefix(d, k + 1);
                }
            }
            return None;
        }
        proof {
            assert(value * 10 + digit <= u64::MAX) by (nonlinear_arith)
                requires
                    value <= (u64::MAX - digit) / 10,
                    digit <= 9,
            ;
        }
        value = value * 10 + digit;
        i = i + 1;
    }
    assert(d.take(i - start) =~= d);
    Some(value)
}

/// What the stored slot reads as: slot 0 when nothing is stored or the text
/// is not a `u64`.
pub fn decode_last_slot(stored: Option<&[u8]>) -> (r: u64)
    ensures
        r == match stored {
            Some(s) => match spec_parse_u64(s@) {
                Some(v) => v,
                None => 0,
            },
            None => 0,
        },
{
    match stored {
        Some(s) => match parse_u64(s) {
            Some(v) => v,
            None => 0,
        },
        None => 0,
    }
}

/// The decimal digits of `n`, most significant first, without leading zeros
/// ("0" for zero).
pub open spec fn decimal_digits(n: nat) -> Seq<u8>
    decreases n,
{
    if n < 10 {
        seq![(n + 0x30) as u8]
    } else {
        decimal_digits(n / 10).push(((n % 10) + 0x30) as u8)
    }
}

/// The digits of `n` are digits, and their value is `n`.
proof fn lemma_decimal_digits(n: nat)
    ensures
        decimal_digits(n).len() > 0,
        all_digits(decimal_digits(n)),
        digits_value(decimal_digits(n)) == n,
        decimal_digits(n)[0] != 0x2b,
    decreases n,
{
    if n >= 10 {
        lemma_decimal_digits(n / 10);
        let s = decimal_digits(n);
        assert(s.drop_last() =~= decimal_digits(n / 10));
        assert(s[0] == decimal_digits(n / 10)[0]);
    } else {
        assert(digits_value(decimal_digits(n).drop_last()) == 0);
    }
}

/// The stored form of a slot: its decimal text.
pub fn encode_slot(slot: u64) -> (r: Vec<u8>)
    ensures
        r@ == decimal_digits(slot as nat),
{
    let mut rev: Vec<u8> = Vec::new();
    let mut n: u64 = slot;
    let ghost mut acc: Seq<u8> = Seq::empty();
    while n >= 10
        invariant
            n <= slot,
            decimal_digits(slot as nat) == decimal_digits(n as nat) + acc,
            rev@ == acc.reverse(),
        decreases n,
    {
        let d = (n % 10) as u8 + 0x30u8;
        rev.push(d);
        proof {
            assert(decimal_digits(n as nat) == decimal_digits((n / 10) as nat).push(d));
            assert(decimal_digits(n as nat) + acc =~= decimal_digits((n / 10) as nat) + (seq![d] + acc));
            acc = seq![d] + acc;
        }
        assert(rev@ =~= acc.reverse());
        n = n / 10;
    }
    let d = n as u8 + 0x30u8;
    rev.push(d);
    proof {
        assert(decimal_digits(n as nat) =~= seq![d]);
        acc = seq![d] + acc;
    }
    assert(rev@ =~= acc.reverse());
    assert(decimal_digits(slot as nat) =~= acc);
    let mut out: Vec<u8> = Vec::new();
    let mut i: usize = rev.len();
    while i > 0
        invariant
            i <= rev@.len(),
            rev@ == acc.reverse(),
            out@ == acc.take(rev@.len() - i),
        decreases i,
    {
        i = i - 1;
        out.push(rev[i]);
        assert(out@ =~= acc.take(rev@.len() - i));
    }
    assert(out@ =~= acc);
    out
}

/// A slot is stored as its plain decimal text: ASCII digits, most significant
/// first, whose value is the slot, with no leading zero.
pub proof fn lemma_slot_text_is_decimal(n: nat)
    ensures
        all_digits(decimal_digits(n)),
        digits_value(decimal_digits(n)) == n,
        decimal_digits(n).len() > 1 ==> decimal_digits(n)[0] != 0x30,
        decimal_digits(n).len() == 1 <==> n < 10,
    decreases n,
{
    lemma_decimal_digits(n);
    if n >= 10 {
        lemma_slot_text_is_decimal(n / 10);
        let s = decimal_digits(n);
        assert(s.drop_last() =~= decimal_digits(n / 10));
        assert(s[0] == decimal_digits(n / 10)[0]);
        if decimal_digits(n / 10).len() == 1 {
            assert(n / 10 >= 1);
            assert(decimal_digits(n / 10)[0] == (n / 10 + 0x30) as u8);
        }
    }
}

/// A stored slot reads back as the same slot.
pub proof fn lemma_slot_roundtrip(slot: u64)
    ensures
        spec_parse_u64(decimal_digits(slot as nat)) == Some(slot),
{
    lemma_decimal_digits(slot as nat);
}

} // verus!
