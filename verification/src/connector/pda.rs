//! Program derived addresses of the bridge program's profiles, and the
//! addresses an event concerns.
//!
//! An admin profile lives at the address derived from the seeds
//! `["admin", authority]`, a user profile at the one derived from
//! `["user", authority, admin_profile]`, both under the bridge program's id.
use vstd::prelude::*;
use crate::pubkey::Pubkey;
use crate::runtime::{spec_find_program_address, try_find_program_address};
use crate::connector::events::BridgeEvent;

verus! {

/// The id of the bridge program, `3LhCu6pXXdiwpvBUrFKLxCy1XQ5qyE7v6WSCLbkbS8Dr`.
pub open spec fn spec_program_id() -> Pubkey {
    Pubkey {
        k0: 0x722772158cdec222u64,
        k1: 0x30798012f67db70bu64,
        k2: 0xdbb482fa13f07ca7u64,
        k3: 0xcd074948eabd0af6u64,
    }
}

/// The id of the bridge program.
pub fn program_id() -> (r: Pubkey)
    ensures
        r == spec_program_id(),
{
    Pubkey {
        k0: 0x722772158cdec222u64,
        k1: 0x30798012f67db70bu64,
        k2: 0xdbb482fa13f07ca7u64,
        k3: 0xcd074948eabd0af6u64,
    }
}

/// The bytes of `admin`.
pub open spec fn admin_seed() -> Seq<u8> {
    seq![0x61u8, 0x64u8, 0x6du8, 0x69u8, 0x6eu8]
}

/// The bytes of `user`.
pub open spec fn user_seed() -> Seq<u8> {
    seq![0x75u8, 0x73u8, 0x65u8, 0x72u8]
}

/// The address derived from `seeds` under the bridge program, if a bump seed
/// gives one.
pub open spec fn derived_address(seeds: Seq<Seq<u8>>) -> Option<Pubkey> {
    match spec_find_program_address(seeds, spec_program_id().bytes()) {
        Some((key, _)) => Some(Pubkey::spec_from_bytes(key)),
        None => None,
    }
}

/// The address of the admin profile of `authority`.
pub open spec fn spec_admin_pda(authority: Pubkey) -> Option<Pubkey> {
    derived_address(seq![admin_seed(), authority.bytes()])
}

/// The address of the user profile of `authority` for the admin profile at
/// `admin_pda`.
pub open spec fn spec_user_pda(authority: Pubkey, admin_pda: Pubkey) -> Option<Pubkey> {
    derived_address(seq![user_seed(), authority.bytes(), admin_pda.bytes()])
}

/// The address derived from the seeds under the bridge program.
fn derive(seeds: &Vec<Vec<u8>>) -> (r: Option<Pubkey>)
    ensures
        r == derived_address(seeds.deep_view()),
{
    let id = program_id().to_vec();
    match try_find_program_address(seeds, &id) {
        Some((key, _bump)) => Some(Pubkey::from_slice(key.as_slice())),
        None => None,
    }
}

/// The address of the admin profile of `authority`.
pub fn admin_pda(authority: &Pubkey) -> (r: Option<Pubkey>)
    ensures
        r == spec_admin_pda(*authority),
{
    let tag: Vec<u8> = vec![0x61u8, 0x64u8, 0x6du8, 0x69u8, 0x6eu8];
    let key = authority.to_vec();
    assert(tag@ =~= admin_seed());
    let seeds: Vec<Vec<u8>> = vec![tag, key];
    assert(seeds.deep_view()[0] =~= admin_seed());
    assert(seeds.deep_view()[1] =~= authority.bytes());
    assert(seeds.deep_view() =~= seq![admin_seed(), authority.bytes()]);
    derive(&seeds)
}

/// The address of the user profile of `authority` for the admin profile at
/// `admin_pda`.
pub fn user_pda(authority: &Pubkey, admin_pda: &Pubkey) -> (r: Option<Pubkey>)
    ensures
        r == spec_user_pda(*authority, *admin_pda),
{
    let tag: Vec<u8> = vec![0x75u8, 0x73u8, 0x65u8, 0x72u8];
    let key = authority.to_vec();
    let admin = admin_pda.to_vec();
    assert(tag@ =~= user_seed());
    let seeds: Vec<Vec<u8>> = vec![tag, key, admin];
    assert(seeds.deep_view()[0] =~= user_seed());
    assert(seeds.deep_view()[1] =~= authority.bytes());
    assert(seeds.deep_view()[2] =~= admin_pda.bytes());
    assert(seeds.deep_view() =~= seq![user_seed(), authority.bytes(), admin_pda.bytes()]);
    derive(&seeds)
}

/// An admin profile lives at the address derived under the bridge program
/// from the seeds `b"admin"` and the authority's key, and a user profile at
/// the one derived from `b"user"`, the user's key and the admin profile's
/// address, in that order.
pub proof fn lemma_profile_addresses_follow_their_seeds(authority: Pubkey, admin_profile: Pubkey)
    ensures
        spec_admin_pda(authority) == match spec_find_program_address(
            seq![seq![0x61u8, 0x64u8, 0x6du8, 0x69u8, 0x6eu8], authority.bytes()],
            spec_program_id().bytes(),
        ) {
            Some((key, _)) => Some(Pubkey::spec_from_bytes(key)),
            None => None::<Pubkey>,
        },
        spec_user_pda(authority, admin_profile) == match spec_find_program_address(
            seq![seq![0x75u8, 0x73u8, 0x65u8, 0x72u8], authority.bytes(), admin_profile.bytes()],
            spec_program_id().bytes(),
        ) {
            Some((key, _)) => Some(Pubkey::spec_from_bytes(key)),
            None => None::<Pubkey>,
        },
{
}

/// The addresses in the option, as a list.
pub open spec fn listed(o: Option<Pubkey>) -> Seq<Pubkey> {
    match o {
        Some(k) => seq![k],
        None => Seq::empty(),
    }
}

/// The user profile of `authority` for the admin profile of
/// `admin_authority`, if both addresses can be derived.
pub open spec fn user_pda_of_admin_authority(authority: Pubkey, admin_authority: Pubkey) -> Option<
    Pubkey,
> {
    match spec_admin_pda(admin_authority) {
        Some(a) => spec_user_pda(authority, a),
        None => None,
    }
}

/// The profile addresses an event concerns, in the order they are notified:
/// - an admin's own events concern the admin's profile;
/// - a new user profile concerns that profile and the admin profile it was
///   created for;
/// - a user's command concerns the user's profile for the target admin and
///   the target admin's profile;
/// - an admin's command concerns the target user's profile for that admin and
///   the admin's profile.
/// Events that carry neither an admin profile nor the keys to derive one
/// (a user's own deposits, withdrawals, key updates and closing, and logged
/// off-chain actions) concern no profile. An address that cannot be derived
/// is left out.
pub open spec fn event_pdas(e: BridgeEvent) -> Seq<Pubkey> {
    match e {
        BridgeEvent::AdminProfileRegistered(x) => listed(spec_admin_pda(x.authority)),
        BridgeEvent::AdminCommKeyUpdated(x) => listed(spec_admin_pda(x.authority)),
        BridgeEvent::AdminPricesUpdated(x) => listed(spec_admin_pda(x.authority)),
        BridgeEvent::AdminFundsWithdrawn(x) => listed(spec_admin_pda(x.authority)),
        BridgeEvent::AdminProfileClosed(x) => listed(spec_admin_pda(x.authority)),
        BridgeEvent::UserProfileCreated(x) => listed(spec_user_pda(x.authority, x.target_admin))
            + seq![x.target_admin],
        BridgeEvent::UserCommandDispatched(x) => listed(
            user_pda_of_admin_authority(x.sender, x.target_admin_authority),
        ) + listed(spec_admin_pda(x.target_admin_authority)),
        BridgeEvent::AdminCommandDispatched(x) => listed(
            user_pda_of_admin_authority(x.target_user_authority, x.sender),
        ) + listed(spec_admin_pda(x.sender)),
        _ => Seq::empty(),
    }
}

/// The profiles an event concerns, by kind of event:
/// - an admin's own event concerns exactly the admin profile derived from its
///   authority;
/// - a new user profile concerns the admin profile it was created for and the
///   user profile derived from its authority and that admin profile;
/// - a user's command concerns the admin profile derived from the target
///   authority and the sender's user profile for it;
/// - an admin's command concerns the admin profile derived from the sender
///   and the target user's profile for it;
/// - the other events concern no profile.
pub proof fn lemma_event_concerns(e: BridgeEvent)
    ensures
        e matches BridgeEvent::AdminProfileRegistered(x) ==> forall|k: Pubkey|
            #[trigger] event_pdas(e).contains(k) <==> spec_admin_pda(x.authority) == Some(k),
        e matches BridgeEvent::AdminCommKeyUpdated(x) ==> forall|k: Pubkey|
            #[trigger] event_pdas(e).contains(k) <==> spec_admin_pda(x.authority) == Some(k),
        e matches BridgeEvent::AdminPricesUpdated(x) ==> forall|k: Pubkey|
            #[trigger] event_pdas(e).contains(k) <==> spec_admin_pda(x.authority) == Some(k),
        e matches BridgeEvent::AdminFundsWithdrawn(x) ==> forall|k: Pubkey|
            #[trigger] event_pdas(e).contains(k) <==> spec_admin_pda(x.authority) == Some(k),
        e matches BridgeEvent::AdminProfileClosed(x) ==> forall|k: Pubkey|
            #[trigger] event_pdas(e).contains(k) <==> spec_admin_pda(x.authority) == Some(k),
        e matches BridgeEvent::UserProfileCreated(x) ==> forall|k: Pubkey|
            #[trigger] event_pdas(e).contains(k) <==> (k == x.target_admin || spec_user_pda(
                x.authority,
                x.target_admin,
            ) == Some(k)),
        e matches BridgeEvent::UserCommandDispatched(x) ==> forall|k: Pubkey|
            #[trigger] event_pdas(e).contains(k) <==> (spec_admin_pda(x.target_admin_authority)
                == Some(k) || (spec_admin_pda(x.target_admin_authority) matches Some(a)
                && spec_user_pda(x.sender, a) == Some(k))),
        e matches BridgeEvent::AdminCommandDispatched(x) ==> forall|k: Pubkey|
            #[trigger] event_pdas(e).contains(k) <==> (spec_admin_pda(x.sender) == Some(k) || (
            spec_admin_pda(x.sender) matches Some(a) && spec_user_pda(x.target_user_authority, a)
                == Some(k))),
        e is UserCommKeyUpdated || e is UserFundsDeposited || e is UserFundsWithdrawn
            || e is UserProfileClosed || e is OffChainActionLogged || e is Unknown ==> event_pdas(
            e,
        ).len() == 0,
{
    match e {
        BridgeEvent::UserProfileCreated(x) => {
            let u = listed(spec_user_pda(x.authority, x.target_admin));
            assert forall|k: Pubkey| #[trigger] event_pdas(e).contains(k) <==> (k == x.target_admin
                || spec_user_pda(x.authority, x.target_admin) == Some(k)) by {
                lemma_listed_pair_contains(spec_user_pda(x.authority, x.target_admin), Some(x.target_admin), k);
            }
        },
        BridgeEvent::UserCommandDispatched(x) => {
            assert forall|k: Pubkey| #[trigger] event_pdas(e).contains(k) <==> (spec_admin_pda(
                x.target_admin_authority,
            ) == Some(k) || (spec_admin_pda(x.target_admin_authority) matches Some(a)
                && spec_user_pda(x.sender, a) == Some(k))) by {
                lemma_listed_pair_contains(
                    user_pda_of_admin_authority(x.sender, x.target_admin_authority),
                    spec_admin_pda(x.target_admin_authority),
                    k,
                );
            }
        },
        BridgeEvent::AdminCommandDispatched(x) => {
            assert forall|k: Pubkey| #[trigger] event_pdas(e).contains(k) <==> (spec_admin_pda(
                x.sender,
            ) == Some(k) || (spec_admin_pda(x.sender) matches Some(a) && spec_user_pda(
                x.target_user_authority,
                a,
            ) == Some(k))) by {
                lemma_listed_pair_contains(
                    user_pda_of_admin_authority(x.target_user_authority, x.sender),
                    spec_admin_pda(x.sender),
                    k,
                );
            }
        },
        _ => {
            assert forall|k: Pubkey| #[trigger] event_pdas(e).contains(k) implies (match e {
                BridgeEvent::AdminProfileRegistered(x) => spec_admin_pda(x.authority) == Some(k),
                BridgeEvent::AdminCommKeyUpdated(x) => spec_admin_pda(x.authority) == Some(k),
                BridgeEvent::AdminPricesUpdated(x) => spec_admin_pda(x.authority) == Some(k),
                BridgeEvent::AdminFundsWithdrawn(x) => spec_admin_pda(x.authority) == Some(k),
                BridgeEvent::AdminProfileClosed(x) => spec_admin_pda(x.authority) == Some(k),
                _ => false,
            }) by {
                let j = choose|j: int| 0 <= j < event_pdas(e).len() && event_pdas(e)[j] == k;
            }
            match e {
                BridgeEvent::AdminProfileRegistered(x) => {
                    if let Some(a) = spec_admin_pda(x.authority) {
                        assert(event_pdas(e)[0] == a);
                    }
                },
                BridgeEvent::AdminCommKeyUpdated(x) => {
                    if let Some(a) = spec_admin_pda(x.authority) {
                        assert(event_pdas(e)[0] == a);
                    }
                },
                BridgeEvent::AdminPricesUpdated(x) => {
                    if let Some(a) = spec_admin_pda(x.authority) {
                        assert(event_pdas(e)[0] == a);
                    }
                },
                BridgeEvent::AdminFundsWithdrawn(x) => {
                    if let Some(a) = spec_admin_pda(x.authority) {
                        assert(event_pdas(e)[0] == a);
                    }
                },
                BridgeEvent::AdminProfileClosed(x) => {
                    if let Some(a) = spec_admin_pda(x.authority) {
                        assert(event_pdas(e)[0] == a);
                    }
                },
                _ => {},
            }
        },
    }
}

/// An address is among two optional addresses listed one after the other
/// exactly when it is one of them.
proof fn lemma_listed_pair_contains(a: Option<Pubkey>, b: Option<Pubkey>, k: Pubkey)
    ensures
        (listed(a) + listed(b)).contains(k) <==> (a == Some(k) || b == Some(k)),
{
    let s = listed(a) + listed(b);
    if a == Some(k) {
        assert(s[0] == k);
    } else if b == Some(k) {
        assert(s[listed(a).len() as int] == k);
    }
    if s.contains(k) {
        let j = choose|j: int| 0 <= j < s.len() && s[j] == k;
        if j < listed(a).len() {
            assert(listed(a)[j] == k);
        } else {
            assert(listed(b)[j - listed(a).len()] == k);
        }
    }
}

/// Pushes the address, if there is one.
fn push_listed(v: &mut Vec<Pubkey>, o: Option<Pubkey>)
    ensures
        final(v)@ == old(v)@ + listed(o),
{
    match o {
        Some(k) => {
            v.push(k);
        },
        None => {},
    }
    assert(final(v)@ =~= old(v)@ + listed(o));
}

/// The user profile of `authority` for the admin profile of
/// `admin_authority`.
fn user_pda_for_admin_authority(authority: &Pubkey, admin_authority: &Pubkey) -> (r: Option<Pubkey>)
    ensures
        r == user_pda_of_admin_authority(*authority, *admin_authority),
{
    match admin_pda(admin_authority) {
        Some(a) => user_pda(authority, &a),
        None => None,
    }
}

/// The profile addresses an event concerns (see `event_pdas`).
pub fn extract_pdas_from_event(e: &BridgeEvent) -> (r: Vec<Pubkey>)
    ensures
        r@ == event_pdas(*e),
{
    let mut v: Vec<Pubkey> = Vec::new();
    match e {
        BridgeEvent::AdminProfileRegistered(x) => push_listed(&mut v, admin_pda(&x.authority)),
        BridgeEvent::AdminCommKeyUpdated(x) => push_listed(&mut v, admin_pda(&x.authority)),
        BridgeEvent::AdminPricesUpdated(x) => push_listed(&mut v, admin_pda(&x.authority)),
        BridgeEvent::AdminFundsWithdrawn(x) => push_listed(&mut v, admin_pda(&x.authority)),
        BridgeEvent::AdminProfileClosed(x) => push_listed(&mut v, admin_pda(&x.authority)),
        BridgeEvent::UserProfileCreated(x) => {
            push_listed(&mut v, user_pda(&x.authority, &x.target_admin));
            v.push(x.target_admin);
        },
        BridgeEvent::UserCommandDispatched(x) => {
            push_listed(&mut v, user_pda_for_admin_authority(&x.sender, &x.target_admin_authority));
            push_listed(&mut v, admin_pda(&x.target_admin_authority));
        },
        BridgeEvent::AdminCommandDispatched(x) => {
            push_listed(&mut v, user_pda_for_admin_authority(&x.target_user_authority, &x.sender));
            push_listed(&mut v, admin_pda(&x.sender));
        },
        _ => {},
    }
    assert(v@ =~= event_pdas(*e));
    v
}

} // verus!
