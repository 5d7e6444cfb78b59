//! The oracle-signed part of a user's paid command.
use vstd::prelude::*;
use vstd::bytes::*;
use crate::pubkey::Pubkey;

verus! {

/// The arguments of a user's paid command: what the oracle signed, the
/// payload, and the oracle's key and signature.
pub struct UserDispatchCommandArgs {
    /// The command, as signed by the oracle.
    pub command_id: u16,
    /// The price in lamports, as signed by the oracle.
    pub price: u64,
    /// The Unix time of the signature, against replays.
    pub timestamp: i64,
    /// Application data.
    pub payload: Vec<u8>,
    /// The oracle's key.
    pub oracle_pubkey: Pubkey,
    /// The oracle's Ed25519 signature.
    pub oracle_signature: [u8; 64],
}

/// The message the oracle signs: the command id, the price and the timestamp,
/// each little-endian.
pub open spec fn spec_oracle_message(command_id: u16, price: u64, timestamp: i64) -> Seq<u8> {
    spec_u16_to_le_bytes(command_id) + spec_u64_to_le_bytes(price) + spec_u64_to_le_bytes(
        timestamp as u64,
    )
}

/// The oracle's message is 18 bytes from which the command id, the price and
/// the timestamp read back, little-endian, in that order.
pub proof fn lemma_oracle_message_reads_back(command_id: u16, price: u64, timestamp: i64)
    ensures
        spec_oracle_message(command_id, price, timestamp).len() == 18,
        spec_u16_from_le_bytes(spec_oracle_message(command_id, price, timestamp).subrange(0, 2))
            == command_id,
        spec_u64_from_le_bytes(spec_oracle_message(command_id, price, timestamp).subrange(2, 10))
            == price,
        spec_u64_from_le_bytes(spec_oracle_message(command_id, price, timestamp).subrange(10, 18))
            as i64 == timestamp,
{
    lemma_auto_spec_u16_to_from_le_bytes();
    lemma_auto_spec_u64_to_from_le_bytes();
    let m = spec_oracle_message(command_id, price, timestamp);
    assert(m.subrange(0, 2) =~= spec_u16_to_le_bytes(command_id));
    assert(m.subrange(2, 10) =~= spec_u64_to_le_bytes(price));
    assert(m.subrange(10, 18) =~= spec_u64_to_le_bytes(timestamp as u64));
    assert(((timestamp as u64) as i64) == timestamp) by (bit_vector);
}

/// The message the oracle signed for these arguments.
pub fn oracle_message(args: &UserDispatchCommandArgs) -> (r: Vec<u8>)
    ensures
        r@ == spec_oracle_message(args.command_id, args.price, args.timestamp),
        r@.len() == 18,
{
    proof {
        lemma_auto_spec_u16_to_from_le_bytes();
        lemma_auto_spec_u64_to_from_le_bytes();
    }
    let mut r = u16_to_le_bytes(args.command_id);
    let mut p = u64_to_le_bytes(args.price);
    let mut t = u64_to_le_bytes(args.timestamp as u64);
    r.append(&mut p);
    r.append(&mut t);
    r
}

} // verus!
