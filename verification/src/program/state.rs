//! Account data of the bridge program and the price list it keeps.
use vstd::prelude::*;
use crate::pubkey::Pubkey;

verus! {

/// The number of price entries an admin profile has room for when created.
pub const DEFAULT_API_SIZE: usize = 10;

/// The in-memory size of the admin profile record on the program's 64-bit
/// target: two keys, a vector and a `u64`.
pub const ADMIN_PROFILE_RECORD_SIZE: usize = 96;

/// The in-memory size of the user profile record: three keys and a `u64`.
pub const USER_PROFILE_RECORD_SIZE: usize = 104;

/// The room one price entry takes in the admin profile's data.
pub const PRICE_SLOT_SIZE: usize = 16;

/// The most bytes an account may grow by in one instruction.
pub const MAX_PERMITTED_DATA_INCREASE: usize = 10240;

/// The data length of an admin profile with room for `n` price entries: the
/// 8-byte account discriminator, the record and one slot per entry.
pub open spec fn admin_profile_space(n: int) -> int {
    8 + ADMIN_PROFILE_RECORD_SIZE + n * PRICE_SLOT_SIZE
}

/// The data length of a user profile.
pub open spec fn user_profile_space() -> int {
    8 + USER_PROFILE_RECORD_SIZE
}

/// A single entry in an admin's price list.
#[derive(Clone, Copy, Debug, PartialEq, Eq, Structural)]
pub struct PriceEntry {
    /// Identifier of the command.
    pub command_id: u16,
    /// Price in lamports.
    pub price: u64,
}

impl PriceEntry {
    pub fn new(command_id: u16, price: u64) -> (r: Self)
        ensures
            r.command_id == command_id,
            r.price == price,
    {
        PriceEntry { command_id, price }
    }
}

/// The on-chain profile of a service provider (an "admin"): its price list and
/// the treasury balance in which fees from paid user commands are collected.
#[derive(Clone, Debug, PartialEq, Eq)]
pub struct AdminProfile {
    /// The admin's wallet, the only key allowed to manage the profile.
    pub authority: Pubkey,
    /// The admin's key for off-chain key exchange.
    pub communication_pubkey: Pubkey,
    /// Prices of the admin's commands, kept sorted by command id.
    pub prices: Vec<PriceEntry>,
    /// Fees collected from users, in lamports.
    pub balance: u64,
}

/// A user's profile for one specific admin service: the user's prepaid deposit.
#[derive(Clone, Copy, Debug, PartialEq, Eq, Structural)]
pub struct UserProfile {
    /// The user's wallet, the only key allowed to manage the profile.
    pub authority: Pubkey,
    /// The user's key for off-chain key exchange.
    pub communication_pubkey: Pubkey,
    /// The address of the admin profile this user profile was created for.
    pub admin_profile_on_creation: Pubkey,
    /// The user's prepaid balance for this service, in lamports.
    pub deposit_balance: u64,
}

/// The command ids of a price list strictly increase.
pub open spec fn prices_sorted(ps: Seq<PriceEntry>) -> bool {
    forall|i: int, j: int| 0 <= i < j < ps.len() ==> #[trigger] ps[i].command_id < #[trigger] ps[j].command_id
}

/// The list holds an entry for command `id`.
pub open spec fn has_command(ps: Seq<PriceEntry>, id: u16) -> bool {
    exists|i: int| 0 <= i < ps.len() && #[trigger] ps[i].command_id == id
}

/// The price charged for command `id`: the price of its entry, or 0 when the
/// list has none.
pub open spec fn price_of(ps: Seq<PriceEntry>, id: u16) -> u64 {
    if has_command(ps, id) {
        ps[choose|i: int| 0 <= i < ps.len() && #[trigger] ps[i].command_id == id].price
    } else {
        0
    }
}

/// `out` is the price list that sorting `input` by command id and keeping one
/// entry per command id yields: its ids strictly increase, each of its entries
/// comes from `input`, and each command id of `input` has an entry in it.
pub open spec fn normalized_prices(input: Seq<PriceEntry>, out: Seq<PriceEntry>) -> bool {
    &&& prices_sorted(out)
    &&& forall|j: int| 0 <= j < out.len() ==> #[trigger] input.contains(out[j])
    &&& forall|i: int| 0 <= i < input.len() ==> has_command(out, #[trigger] input[i].command_id)
}

impl AdminProfile {
    /// The profile's invariant: its price list is sorted by command id.
    pub open spec fn wf(&self) -> bool {
        prices_sorted(self.prices@)
    }
}

/// In a sorted list an entry for `id` sits at exactly one position.
pub proof fn lemma_sorted_unique(ps: Seq<PriceEntry>, i: int, id: u16)
    requires
        prices_sorted(ps),
        0 <= i < ps.len(),
        ps[i].command_id == id,
    ensures
        price_of(ps, id) == ps[i].price,
{
    let k = choose|k: int| 0 <= k < ps.len() && #[trigger] ps[k].command_id == id;
    assert(ps[k].command_id == id);
    if k < i {
        assert(ps[k].command_id < ps[i].command_id);
    } else if i < k {
        assert(ps[i].command_id < ps[k].command_id);
    }
}

/// Looks up command `id` in a sorted price list by binary search, giving the
/// index of its entry.
pub fn find_price_index(prices: &Vec<PriceEntry>, id: u16) -> (r: Option<usize>)
    requires
        prices_sorted(prices@),
    ensures
        match r {
            Some(i) => i < prices@.len() && prices@[i as int].command_id == id,
            None => !has_command(prices@, id),
        },
{
    let mut lo: usize = 0;
    let mut hi: usize = prices.len();
    while lo < hi
        invariant
            lo <= hi <= prices@.len(),
            prices_sorted(prices@),
            forall|k: int| 0 <= k < lo ==> #[trigger] prices@[k].command_id < id,
            forall|k: int| hi <= k < prices@.len() ==> #[trigger] prices@[k].command_id > id,
        decreases hi - lo,
    {
        let mid = lo + (hi - lo) / 2;
        let c = prices[mid].command_id;
        if c == id {
            return Some(mid);
        } else if c < id {
            assert forall|k: int| 0 <= k < mid + 1 implies #[trigger] prices@[k].command_id < id by {
                if k < mid {
                    assert(prices@[k].command_id < prices@[mid as int].command_id);
                }
            }
            lo = mid + 1;
        } else {
            assert forall|k: int| mid <= k < prices@.len() implies #[trigger] prices@[k].command_id
                > id by {
                if k > mid {
                    assert(prices@[mid as int].command_id < prices@[k].command_id);
                }
            }
            hi = mid;
        }
    }
    assert(!has_command(prices@, id)) by {
        if has_command(prices@, id) {
            let k = choose|k: int| 0 <= k < prices@.len() && #[trigger] prices@[k].command_id == id;
            assert(prices@[k].command_id == id);
        }
    }
    None
}

/// The price of command `id` in a sorted price list, 0 when it has no entry.
pub fn lookup_price(prices: &Vec<PriceEntry>, id: u16) -> (r: u64)
    requires
        prices_sorted(prices@),
    ensures
        r == price_of(prices@, id),
{
    match find_price_index(prices, id) {
        Some(i) => {
            proof {
                lemma_sorted_unique(prices@, i as int, id);
            }
            prices[i].price
        },
        None => 0,
    }
}

/// Sorts a price list by command id and keeps one entry per command id.
pub fn normalize_prices(input: &Vec<PriceEntry>) -> (out: Vec<PriceEntry>)
    ensures
        normalized_prices(input@, out@),
        out@.len() <= input@.len(),
{
    let mut out: Vec<PriceEntry> = Vec::new();
    let mut i: usize = 0;
    while i < input.len()
        invariant
            i <= input@.len(),
            out@.len() <= i,
            prices_sorted(out@),
            forall|j: int| 0 <= j < out@.len() ==> #[trigger] input@.contains(out@[j]),
            forall|k: int| 0 <= k < i ==> has_command(out@, #[trigger] input@[k].command_id),
        decreases input@.len() - i,
    {
        let e = input[i];
        assert(input@.contains(e)) by {
            assert(input@[i as int] == e);
        }
        match find_price_index(&out, e.command_id) {
            Some(_) => {},
            None => {
                // position of the first entry with a larger id
                let mut p: usize = 0;
                while p < out.len() && out[p].command_id < e.command_id
                    invariant
                        p <= out@.len(),
                        prices_sorted(out@),
                        forall|k: int| 0 <= k < p ==> #[trigger] out@[k].command_id < e.command_id,
                    decreases out@.len() - p,
                {
                    p = p + 1;
                }
                let ghost before = out@;
                assert(forall|k: int| p <= k < before.len() ==> #[trigger] before[k].command_id
                    > e.command_id) by {
                    assert forall|k: int| p <= k < before.len() implies #[trigger] before[k].command_id
                        > e.command_id by {
                        if p < before.len() {
                            assert(before[p as int].command_id >= e.command_id);
                            assert(before[p as int].command_id != e.command_id);
                            if k > p {
                                assert(before[p as int].command_id < before[k].command_id);
                            }
                        }
                    }
                }
                out.insert(p, e);
                assert(out@ == before.insert(p as int, e));
                assert forall|a: int, b: int| 0 <= a < b < out@.len() implies #[trigger] out@[a].command_id
                    < #[trigger] out@[b].command_id by {
                    if b < p {
                        assert(before[a].command_id < before[b].command_id);
                    } else if b == p {
                        assert(out@[a] == before[a]);
                    } else if a < p {
                        assert(out@[b] == before[b - 1]);
                    } else if a == p {
                        assert(out@[b] == before[b - 1]);
                    } else {
                        assert(before[a - 1].command_id < before[b - 1].command_id);
                    }
                }
                assert forall|j: int| 0 <= j < out@.len() implies #[trigger] input@.contains(out@[j]) by {
                    if j < p {
                        assert(out@[j] == before[j]);
                    } else if j > p {
                        assert(out@[j] == before[j - 1]);
                    }
                }
                assert forall|x: u16| has_command(before, x) implies has_command(out@, x) by {
                    let k = choose|k: int| 0 <= k < before.len() && #[trigger] before[k].command_id == x;
                    if k < p {
                        assert(out@[k] == before[k]);
                    } else {
                        assert(out@[k + 1] == before[k]);
                    }
                }
                assert(out@[p as int] == e);
            },
        }
        assert(has_command(out@, e.command_id));
        i = i + 1;
    }
    out
}

} // verus!
