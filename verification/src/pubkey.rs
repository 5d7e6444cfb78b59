//! A 32-byte account address held as four little-endian words, so that
//! equality on it is plain structural equality.
use vstd::prelude::*;
use vstd::bytes::*;
use vstd::slice::*;

verus! {

/// An account address (an ed25519 public key or a program derived address).
#[derive(Clone, Copy, Debug, PartialEq, Eq, Hash, Structural)]
pub struct Pubkey {
    pub k0: u64,
    pub k1: u64,
    pub k2: u64,
    pub k3: u64,
}

impl Pubkey {
    /// The 32 bytes of the address.
    pub open spec fn bytes(self) -> Seq<u8> {
        spec_u64_to_le_bytes(self.k0) + spec_u64_to_le_bytes(self.k1) + spec_u64_to_le_bytes(
            self.k2,
        ) + spec_u64_to_le_bytes(self.k3)
    }

    /// The address whose bytes are `s`.
    pub open spec fn spec_from_bytes(s: Seq<u8>) -> Pubkey {
        Pubkey {
            k0: spec_u64_from_le_bytes(s.subrange(0, 8)),
            k1: spec_u64_from_le_bytes(s.subrange(8, 16)),
            k2: spec_u64_from_le_bytes(s.subrange(16, 24)),
            k3: spec_u64_from_le_bytes(s.subrange(24, 32)),
        }
    }

    /// The all-zero address.
    pub fn zero() -> (r: Pubkey)
        ensures
            r.bytes() == Seq::new(32, |i: int| 0u8),
    {
        let r = Pubkey { k0: 0, k1: 0, k2: 0, k3: 0 };
        proof {
            lemma_zero_word_bytes();
            assert(r.bytes() =~= Seq::new(32, |i: int| 0u8));
        }
        r
    }

    /// Reads an address from exactly 32 bytes.
    pub fn from_slice(s: &[u8]) -> (r: Pubkey)
        requires
            s@.len() == 32,
        ensures
            r.bytes() == s@,
            r == Pubkey::spec_from_bytes(s@),
    {
        let r = Pubkey {
            k0: u64_from_le_bytes(slice_subrange(s, 0, 8)),
            k1: u64_from_le_bytes(slice_subrange(s, 8, 16)),
            k2: u64_from_le_bytes(slice_subrange(s, 16, 24)),
            k3: u64_from_le_bytes(slice_subrange(s, 24, 32)),
        };
        proof {
            lemma_from_bytes_roundtrip(s@);
        }
        r
    }

    /// Builds an address from its 32 bytes.
    pub fn new_from_array(a: [u8; 32]) -> (r: Pubkey)
        ensures
            r.bytes() == a@,
    {
        Pubkey::from_slice(vstd::array::array_as_slice(&a))
    }

    /// The 32 bytes of the address.
    pub fn to_vec(&self) -> (v: Vec<u8>)
        ensures
            v@ == self.bytes(),
            v@.len() == 32,
    {
        proof {
            lemma_auto_spec_u64_to_from_le_bytes();
        }
        let mut v = u64_to_le_bytes(self.k0);
        let mut b1 = u64_to_le_bytes(self.k1);
        let mut b2 = u64_to_le_bytes(self.k2);
        let mut b3 = u64_to_le_bytes(self.k3);
        v.append(&mut b1);
        v.append(&mut b2);
        v.append(&mut b3);
        v
    }
}

proof fn lemma_zero_word_bytes()
    ensures
        spec_u64_to_le_bytes(0u64) == Seq::new(8, |i: int| 0u8),
{
    spec_u64_to_le_bytes_to_open(0u64);
    assert((0u64 & 0xff) as u8 == 0 && ((0u64 >> 8) & 0xff) as u8 == 0 && ((0u64 >> 16) & 0xff) as u8
        == 0 && ((0u64 >> 24) & 0xff) as u8 == 0 && ((0u64 >> 32) & 0xff) as u8 == 0 && ((0u64
        >> 40) & 0xff) as u8 == 0 && ((0u64 >> 48) & 0xff) as u8 == 0 && ((0u64 >> 56) & 0xff) as u8
        == 0) by (bit_vector);
    assert(spec_u64_to_le_bytes_open(0u64) =~= Seq::new(8, |i: int| 0u8));
}

/// Reading the bytes of an address gives the address back, and every 32-byte
/// sequence is the byte form of the address read from it.
pub proof fn lemma_from_bytes_roundtrip(s: Seq<u8>)
    requires
        s.len() == 32,
    ensures
        Pubkey::spec_from_bytes(s).bytes() == s,
{
    lemma_auto_spec_u64_to_from_le_bytes();
    let p = Pubkey::spec_from_bytes(s);
    assert(spec_u64_to_le_bytes(p.k0) == s.subrange(0, 8));
    assert(spec_u64_to_le_bytes(p.k1) == s.subrange(8, 16));
    assert(spec_u64_to_le_bytes(p.k2) == s.subrange(16, 24));
    assert(spec_u64_to_le_bytes(p.k3) == s.subrange(24, 32));
    assert(p.bytes() =~= s);
}

/// The byte form of an address is 32 bytes long and determines the address.
pub proof fn lemma_bytes_determine_key(a: Pubkey)
    ensures
        a.bytes().len() == 32,
        Pubkey::spec_from_bytes(a.bytes()) == a,
{
    lemma_auto_spec_u64_to_from_le_bytes();
    let s = a.bytes();
    assert(s.subrange(0, 8) =~= spec_u64_to_le_bytes(a.k0));
    assert(s.subrange(8, 16) =~= spec_u64_to_le_bytes(a.k1));
    assert(s.subrange(16, 24) =~= spec_u64_to_le_bytes(a.k2));
    assert(s.subrange(24, 32) =~= spec_u64_to_le_bytes(a.k3));
}

} // verus!
