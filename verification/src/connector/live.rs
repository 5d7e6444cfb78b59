//! The live worker's reading of the program's log stream.
use vstd::prelude::*;
use vstd::slice::*;
use vstd::string::StringSliceAdditionalSpecFns;
use crate::codec::bytes_equal;

verus! {

/// The text `needle` occurs in `hay` (compared byte by byte, which for UTF-8
/// text is the same as character by character).
pub open spec fn occurs_in(hay: Seq<u8>, needle: Seq<u8>) -> bool {
    exists|i: int| 0 <= i && i + needle.len() <= hay.len() && #[trigger] hay.subrange(i, i + needle.len()) == needle
}

/// Whether a log line mentions the program, by its base58 id.
pub fn mentions(log: &str, program_id: &str) -> (r: bool)
    ensures
        r == occurs_in(log.spec_bytes(), program_id.spec_bytes()),
{
    let hay = log.as_bytes();
    let needle = program_id.as_bytes();
    let n = needle.len();
    if n > hay.len() {
        return false;
    }
    if n == 0 {
        assert(hay@.subrange(0int, 0int + needle@.len()) =~= needle@);
        return true;
    }
    let mut i: usize = 0;
    let last = hay.len() - n;
    while i <= last
        invariant
            last == hay@.len() - n,
            hay@.len() == hay.len(),
            0 < n,
            i <= last + 1,
            n == needle@.len(),
            n <= hay@.len(),
            hay@ == log.spec_bytes(),
            needle@ == program_id.spec_bytes(),
            forall|j: int| 0 <= j < i ==> #[trigger] hay@.subrange(j, j + n) != needle@,
        decreases last + 1 - i,
    {
        if bytes_equal(slice_subrange(hay, i, i + n), needle) {
            return true;
        }
        i = i + 1;
    }
    assert forall|j: int| 0 <= j && j + n <= hay@.len() implies #[trigger] hay@.subrange(j, j + n) != needle@ by {
        assert(j < i);
    }
    false
}

} // verus!
