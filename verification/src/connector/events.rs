//! Decoding of the bridge program's event records.
//!
//! The program writes each event into its transaction log as a line
//! `Program data: <base64>`, where the decoded bytes are an 8-byte
//! discriminator (the first 8 bytes of the SHA-256 digest of `event:<Name>`)
//! followed by the event's fields.
use vstd::prelude::*;
use vstd::slice::*;
use vstd::bytes::{spec_u16_to_le_bytes, spec_u32_to_le_bytes, spec_u64_to_le_bytes};
use vstd::string::StringSliceAdditionalSpecFns;
use crate::pubkey::Pubkey;
use crate::codec::{
    FieldData, FieldKind, FieldValue, bytes_at, bytes_equal, dec_fields, enc_fields, fields_encodable,
    fields_view, i64_at, key_at, kind_of, kinds_of, lemma_fields_rewrite, lemma_fields_roundtrip,
    prices_at, read_fields, u16_at, u64_at, write_fields, enc_price_list,
};
use crate::program::events::{
    AdminCommKeyUpdated, AdminCommandDispatched, AdminFundsWithdrawn, AdminPricesUpdated,
    AdminProfileClosed, AdminProfileRegistered, EventKind, OffChainActionLogged, UserCommKeyUpdated,
    UserCommandDispatched, UserFundsDeposited, UserFundsWithdrawn, UserProfileClosed,
    UserProfileCreated, all_event_kinds, event_kinds, event_label, event_schema, label_of, schema_of,
};
use crate::runtime::{sha256, spec_sha256};
use crate::text::{
    base64_decode, base64_encode, is_base64_char, is_char_whitespace, no_edge_whitespace, push_str,
    spec_base64_decode, spec_trim, strip_prefix, trim, all_whitespace, lemma_trim_surrounded,
};

verus! {

/// A decoded event of the bridge program.
#[derive(Clone, Debug, PartialEq, Eq)]
pub enum BridgeEvent {
    AdminProfileRegistered(AdminProfileRegistered),
    AdminCommKeyUpdated(AdminCommKeyUpdated),
    AdminPricesUpdated(AdminPricesUpdated),
    AdminFundsWithdrawn(AdminFundsWithdrawn),
    AdminProfileClosed(AdminProfileClosed),
    AdminCommandDispatched(AdminCommandDispatched),
    UserProfileCreated(UserProfileCreated),
    UserCommKeyUpdated(UserCommKeyUpdated),
    UserFundsDeposited(UserFundsDeposited),
    UserFundsWithdrawn(UserFundsWithdrawn),
    UserProfileClosed(UserProfileClosed),
    UserCommandDispatched(UserCommandDispatched),
    OffChainActionLogged(OffChainActionLogged),
    Unknown,
}

/// The kind of a decoded event; `None` for `Unknown`.
pub open spec fn event_kind(e: BridgeEvent) -> Option<EventKind> {
    match e {
        BridgeEvent::AdminProfileRegistered(_) => Some(EventKind::AdminProfileRegistered),
        BridgeEvent::AdminCommKeyUpdated(_) => Some(EventKind::AdminCommKeyUpdated),
        BridgeEvent::AdminPricesUpdated(_) => Some(EventKind::AdminPricesUpdated),
        BridgeEvent::AdminFundsWithdrawn(_) => Some(EventKind::AdminFundsWithdrawn),
        BridgeEvent::AdminProfileClosed(_) => Some(EventKind::AdminProfileClosed),
        BridgeEvent::AdminCommandDispatched(_) => Some(EventKind::AdminCommandDispatched),
        BridgeEvent::UserProfileCreated(_) => Some(EventKind::UserProfileCreated),
        BridgeEvent::UserCommKeyUpdated(_) => Some(EventKind::UserCommKeyUpdated),
        BridgeEvent::UserFundsDeposited(_) => Some(EventKind::UserFundsDeposited),
        BridgeEvent::UserFundsWithdrawn(_) => Some(EventKind::UserFundsWithdrawn),
        BridgeEvent::UserProfileClosed(_) => Some(EventKind::UserProfileClosed),
        BridgeEvent::UserCommandDispatched(_) => Some(EventKind::UserCommandDispatched),
        BridgeEvent::OffChainActionLogged(_) => Some(EventKind::OffChainActionLogged),
        BridgeEvent::Unknown => None,
    }
}

/// The fields of a decoded event, in record order.
pub open spec fn event_fields(e: BridgeEvent) -> Seq<FieldData> {
    match e {
        BridgeEvent::AdminProfileRegistered(x) => seq![FieldData::Key(x.authority), FieldData::Key(x.communication_pubkey), FieldData::I64(x.ts)],
        BridgeEvent::AdminCommKeyUpdated(x) => seq![FieldData::Key(x.authority), FieldData::Key(x.new_comm_pubkey), FieldData::I64(x.ts)],
        BridgeEvent::AdminPricesUpdated(x) => seq![FieldData::Key(x.authority), FieldData::Prices(x.new_prices@), FieldData::I64(x.ts)],
        BridgeEvent::AdminFundsWithdrawn(x) => seq![FieldData::Key(x.authority), FieldData::U64(x.amount), FieldData::Key(x.destination), FieldData::I64(x.ts)],
        BridgeEvent::AdminProfileClosed(x) => seq![FieldData::Key(x.authority), FieldData::I64(x.ts)],
        BridgeEvent::AdminCommandDispatched(x) => seq![FieldData::Key(x.sender), FieldData::Key(x.target_user_authority), FieldData::U64(x.command_id), FieldData::Bytes(x.payload@), FieldData::I64(x.ts)],
        BridgeEvent::UserProfileCreated(x) => seq![FieldData::Key(x.authority), FieldData::Key(x.target_admin), FieldData::Key(x.communication_pubkey), FieldData::I64(x.ts)],
        BridgeEvent::UserCommKeyUpdated(x) => seq![FieldData::Key(x.authority), FieldData::Key(x.new_comm_pubkey), FieldData::I64(x.ts)],
        BridgeEvent::UserFundsDeposited(x) => seq![FieldData::Key(x.authority), FieldData::U64(x.amount), FieldData::U64(x.new_deposit_balance), FieldData::I64(x.ts)],
        BridgeEvent::UserFundsWithdrawn(x) => seq![FieldData::Key(x.authority), FieldData::U64(x.amount), FieldData::Key(x.destination), FieldData::U64(x.new_deposit_balance), FieldData::I64(x.ts)],
        BridgeEvent::UserProfileClosed(x) => seq![FieldData::Key(x.authority), FieldData::I64(x.ts)],
        BridgeEvent::UserCommandDispatched(x) => seq![FieldData::Key(x.sender), FieldData::Key(x.target_admin_authority), FieldData::U16(x.command_id), FieldData::U64(x.price_paid), FieldData::Bytes(x.payload@), FieldData::I64(x.ts)],
        BridgeEvent::OffChainActionLogged(x) => seq![FieldData::Key(x.actor), FieldData::U64(x.session_id), FieldData::U16(x.action_code), FieldData::I64(x.ts)],
        BridgeEvent::Unknown => Seq::empty(),
    }
}

/// The fields of a decoded event, in record order.
pub fn to_fields(e: &BridgeEvent) -> (r: Vec<FieldValue>)
    ensures
        fields_view(r@) == event_fields(*e),
{
    let r = match e {
        BridgeEvent::AdminProfileRegistered(x) => vec![FieldValue::Key(x.authority), FieldValue::Key(x.communication_pubkey), FieldValue::I64(x.ts)],
        BridgeEvent::AdminCommKeyUpdated(x) => vec![FieldValue::Key(x.authority), FieldValue::Key(x.new_comm_pubkey), FieldValue::I64(x.ts)],
        BridgeEvent::AdminPricesUpdated(x) => vec![FieldValue::Key(x.authority), FieldValue::Prices(x.new_prices.clone()), FieldValue::I64(x.ts)],
        BridgeEvent::AdminFundsWithdrawn(x) => vec![FieldValue::Key(x.authority), FieldValue::U64(x.amount), FieldValue::Key(x.destination), FieldValue::I64(x.ts)],
        BridgeEvent::AdminProfileClosed(x) => vec![FieldValue::Key(x.authority), FieldValue::I64(x.ts)],
        BridgeEvent::AdminCommandDispatched(x) => vec![FieldValue::Key(x.sender), FieldValue::Key(x.target_user_authority), FieldValue::U64(x.command_id), FieldValue::Bytes(x.payload.clone()), FieldValue::I64(x.ts)],
        BridgeEvent::UserProfileCreated(x) => vec![FieldValue::Key(x.authority), FieldValue::Key(x.target_admin), FieldValue::Key(x.communication_pubkey), FieldValue::I64(x.ts)],
        BridgeEvent::UserCommKeyUpdated(x) => vec![FieldValue::Key(x.authority), FieldValue::Key(x.new_comm_pubkey), FieldValue::I64(x.ts)],
        BridgeEvent::UserFundsDeposited(x) => vec![FieldValue::Key(x.authority), FieldValue::U64(x.amount), FieldValue::U64(x.new_deposit_balance), FieldValue::I64(x.ts)],
        BridgeEvent::UserFundsWithdrawn(x) => vec![FieldValue::Key(x.authority), FieldValue::U64(x.amount), FieldValue::Key(x.destination), FieldValue::U64(x.new_deposit_balance), FieldValue::I64(x.ts)],
        BridgeEvent::UserProfileClosed(x) => vec![FieldValue::Key(x.authority), FieldValue::I64(x.ts)],
        BridgeEvent::UserCommandDispatched(x) => vec![FieldValue::Key(x.sender), FieldValue::Key(x.target_admin_authority), FieldValue::U16(x.command_id), FieldValue::U64(x.price_paid), FieldValue::Bytes(x.payload.clone()), FieldValue::I64(x.ts)],
        BridgeEvent::OffChainActionLogged(x) => vec![FieldValue::Key(x.actor), FieldValue::U64(x.session_id), FieldValue::U16(x.action_code), FieldValue::I64(x.ts)],
        BridgeEvent::Unknown => Vec::new(),
    };
    assert(fields_view(r@) =~= event_fields(*e));
    r
}

/// The event of kind `k` with the given fields.
pub fn from_fields(k: EventKind, fs: &Vec<FieldValue>) -> (r: BridgeEvent)
    requires
        kinds_of(fields_view(fs@)) == event_schema(k),
    ensures
        event_kind(r) == Some(k),
        event_fields(r) == fields_view(fs@),
{
    proof {
        assert(fields_view(fs@).len() == event_schema(k).len());
        assert forall|i: int| 0 <= i < fs@.len() implies kind_of(#[trigger] fs@[i]@) == event_schema(k)[i] by {
            assert(kinds_of(fields_view(fs@))[i] == kind_of(fields_view(fs@)[i]));
        }
    }
    match k {
        EventKind::AdminProfileRegistered => {
            let f0 = key_at(fs, 0);
            let f1 = key_at(fs, 1);
            let f2 = i64_at(fs, 2);
            let r = BridgeEvent::AdminProfileRegistered(AdminProfileRegistered { authority: f0, communication_pubkey: f1, ts: f2 });
            assert(event_fields(r) =~= fields_view(fs@));
            r
        },
        EventKind::AdminCommKeyUpdated => {
            let f0 = key_at(fs, 0);
            let f1 = key_at(fs, 1);
            let f2 = i64_at(fs, 2);
            let r = BridgeEvent::AdminCommKeyUpdated(AdminCommKeyUpdated { authority: f0, new_comm_pubkey: f1, ts: f2 });
            assert(event_fields(r) =~= fields_view(fs@));
            r
        },
        EventKind::AdminPricesUpdated => {
            let f0 = key_at(fs, 0);
            let f1 = prices_at(fs, 1);
            let f2 = i64_at(fs, 2);
            let r = BridgeEvent::AdminPricesUpdated(AdminPricesUpdated { authority: f0, new_prices: f1, ts: f2 });
            assert(event_fields(r) =~= fields_view(fs@));
            r
        },
        EventKind::AdminFundsWithdrawn => {
            let f0 = key_at(fs, 0);
            let f1 = u64_at(fs, 1);
            let f2 = key_at(fs, 2);
            let f3 = i64_at(fs, 3);
            let r = BridgeEvent::AdminFundsWithdrawn(AdminFundsWithdrawn { authority: f0, amount: f1, destination: f2, ts: f3 });
            assert(event_fields(r) =~= fields_view(fs@));
            r
        },
        EventKind::AdminProfileClosed => {
            let f0 = key_at(fs, 0);
            let f1 = i64_at(fs, 1);
            let r = BridgeEvent::AdminProfileClosed(AdminProfileClosed { authority: f0, ts: f1 });
            assert(event_fields(r) =~= fields_view(fs@));
            r
        },
        EventKind::AdminCommandDispatched => {
            let f0 = key_at(fs, 0);
            let f1 = key_at(fs, 1);
            let f2 = u64_at(fs, 2);
            let f3 = bytes_at(fs, 3);
            let f4 = i64_at(fs, 4);
            let r = BridgeEvent::AdminCommandDispatched(AdminCommandDispatched { sender: f0, target_user_authority: f1, command_id: f2, payload: f3, ts: f4 });
            assert(event_fields(r) =~= fields_view(fs@));
            r
        },
        EventKind::UserProfileCreated => {
            let f0 = key_at(fs, 0);
            let f1 = key_at(fs, 1);
            let f2 = key_at(fs, 2);
            let f3 = i64_at(fs, 3);
            let r = BridgeEvent::UserProfileCreated(UserProfileCreated { authority: f0, target_admin: f1, communication_pubkey: f2, ts: f3 });
            assert(event_fields(r) =~= fields_view(fs@));
            r
        },
        EventKind::UserCommKeyUpdated => {
            let f0 = key_at(fs, 0);
            let f1 = key_at(fs, 1);
            let f2 = i64_at(fs, 2);
            let r = BridgeEvent::UserCommKeyUpdated(UserCommKeyUpdated { authority: f0, new_comm_pubkey: f1, ts: f2 });
            assert(event_fields(r) =~= fields_view(fs@));
            r
        },
        EventKind::UserFundsDeposited => {
            let f0 = key_at(fs, 0);
            let f1 = u64_at(fs, 1);
            let f2 = u64_at(fs, 2);
            let f3 = i64_at(fs, 3);
            let r = BridgeEvent::UserFundsDeposited(UserFundsDeposited { authority: f0, amount: f1, new_deposit_balance: f2, ts: f3 });
            assert(event_fields(r) =~= fields_view(fs@));
            r
        },
        EventKind::UserFundsWithdrawn => {
            let f0 = key_at(fs, 0);
            let f1 = u64_at(fs, 1);
            let f2 = key_at(fs, 2);
            let f3 = u64_at(fs, 3);
            let f4 = i64_at(fs, 4);
            let r = BridgeEvent::UserFundsWithdrawn(UserFundsWithdrawn { authority: f0, amount: f1, destination: f2, new_deposit_balance: f3, ts: f4 });
            assert(event_fields(r) =~= fields_view(fs@));
            r
        },
        EventKind::UserProfileClosed => {
            let f0 = key_at(fs, 0);
            let f1 = i64_at(fs, 1);
            let r = BridgeEvent::UserProfileClosed(UserProfileClosed { authority: f0, ts: f1 });
            assert(event_fields(r) =~= fields_view(fs@));
            r
        },
        EventKind::UserCommandDispatched => {
            let f0 = key_at(fs, 0);
            let f1 = key_at(fs, 1);
            let f2 = u16_at(fs, 2);
            let f3 = u64_at(fs, 3);
            let f4 = bytes_at(fs, 4);
            let f5 = i64_at(fs, 5);
            let r = BridgeEvent::UserCommandDispatched(UserCommandDispatched { sender: f0, target_admin_authority: f1, command_id: f2, price_paid: f3, payload: f4, ts: f5 });
            assert(event_fields(r) =~= fields_view(fs@));
            r
        },
        EventKind::OffChainActionLogged => {
            let f0 = key_at(fs, 0);
            let f1 = u64_at(fs, 1);
            let f2 = u16_at(fs, 2);
            let f3 = i64_at(fs, 3);
            let r = BridgeEvent::OffChainActionLogged(OffChainActionLogged { actor: f0, session_id: f1, action_code: f2, ts: f3 });
            assert(event_fields(r) =~= fields_view(fs@));
            r
        },
    }
}

/// The record could not be read as the event its discriminator names.
#[derive(Clone, Copy, Debug, PartialEq, Eq, Structural)]
pub enum EventDecodeError {
    Malformed,
}

/// The discriminator of a kind of event: the first 8 bytes of the SHA-256
/// digest of `event:<Name>`.
pub open spec fn discriminator(k: EventKind) -> Seq<u8> {
    spec_sha256(event_label(k).spec_bytes()).take(8)
}

/// The discriminators are 8 bytes long and no two kinds share one.
pub open spec fn discriminators_distinct() -> bool {
    &&& forall|k: EventKind| #[trigger] discriminator(k).len() == 8
    &&& forall|i: int, j: int|
        0 <= i < j < all_event_kinds().len() ==> discriminator(#[trigger] all_event_kinds()[i])
            != discriminator(#[trigger] all_event_kinds()[j])
}

/// The first kind in `ks` whose discriminator is `prefix`.
pub open spec fn first_kind(ks: Seq<EventKind>, prefix: Seq<u8>) -> Option<EventKind>
    decreases ks.len(),
{
    if ks.len() == 0 {
        None
    } else if discriminator(ks[0]) == prefix {
        Some(ks[0])
    } else {
        first_kind(ks.drop_first(), prefix)
    }
}

/// What a record decodes to.
pub enum RecordOutcome {
    /// The record is too short or its discriminator names no known event.
    Unknown,
    /// The discriminator names an event whose fields do not fill the rest.
    Malformed,
    /// An event of the kind with the fields.
    Event(EventKind, Seq<FieldData>),
}

/// Decodes an event record.
pub open spec fn decode_record(d: Seq<u8>) -> RecordOutcome {
    if d.len() < 8 {
        RecordOutcome::Unknown
    } else {
        match first_kind(all_event_kinds(), d.take(8)) {
            None => RecordOutcome::Unknown,
            Some(k) => match dec_fields(event_schema(k), d.skip(8)) {
                Some(fs) => RecordOutcome::Event(k, fs),
                None => RecordOutcome::Malformed,
            },
        }
    }
}

/// The record of an event of kind `k` with fields `fs`.
pub open spec fn event_record(k: EventKind, fs: Seq<FieldData>) -> Seq<u8> {
    discriminator(k) + enc_fields(fs)
}

/// `r` is the result of decoding as `o` describes.
pub open spec fn decoded_as(r: Result<BridgeEvent, EventDecodeError>, o: RecordOutcome) -> bool {
    match o {
        RecordOutcome::Unknown => r == Ok::<BridgeEvent, EventDecodeError>(BridgeEvent::Unknown),
        RecordOutcome::Malformed => r == Err::<BridgeEvent, EventDecodeError>(
            EventDecodeError::Malformed,
        ),
        RecordOutcome::Event(k, fs) => {
            &&& r is Ok
            &&& event_kind(r->Ok_0) == Some(k)
            &&& event_fields(r->Ok_0) == fs
        },
    }
}

/// The discriminator of a kind of event.
pub fn discriminator_of(k: EventKind) -> (r: Vec<u8>)
    ensures
        r@ == discriminator(k),
        r@.len() == 8,
{
    let label = label_of(k);
    let digest = sha256(label.as_bytes());
    let r = slice_to_vec(slice_subrange(digest.as_slice(), 0, 8));
    assert(r@ =~= digest@.take(8));
    r
}

/// Whether the discriminators of the kinds of event are 8 bytes long and
/// pairwise different, computed from their digests. A `true` answer
/// establishes the premise of the decoding laws below.
pub fn check_discriminators_distinct() -> (r: bool)
    ensures
        r == discriminators_distinct(),
{
    let kinds = event_kinds();
    let n = kinds.len();
    let mut discs: Vec<Vec<u8>> = Vec::new();
    let mut i: usize = 0;
    while i < n
        invariant
            n == kinds@.len(),
            kinds@ == all_event_kinds(),
            i <= n,
            discs@.len() == i,
            forall|j: int| 0 <= j < i ==> (#[trigger] discs@[j])@ == discriminator(kinds@[j]),
            forall|j: int| 0 <= j < i ==> discriminator(#[trigger] kinds@[j]).len() == 8,
        decreases n - i,
    {
        discs.push(discriminator_of(kinds[i]));
        i = i + 1;
    }
    proof {
        assert forall|k: EventKind| #[trigger] discriminator(k).len() == 8 by {
            let j = lemma_kind_listed(k);
            assert(discriminator(kinds@[j]).len() == 8);
        }
    }
    let mut a: usize = 0;
    while a < n
        invariant
            n == kinds@.len(),
            kinds@ == all_event_kinds(),
            discs@.len() == n,
            a <= n,
            forall|j: int| 0 <= j < n ==> (#[trigger] discs@[j])@ == discriminator(kinds@[j]),
            forall|x: int, y: int|
                0 <= x < a && x < y < n ==> discriminator(#[trigger] kinds@[x]) != discriminator(
                    #[trigger] kinds@[y],
                ),
        decreases n - a,
    {
        let mut b: usize = a + 1;
        while b < n
            invariant
                n == kinds@.len(),
                kinds@ == all_event_kinds(),
                discs@.len() == n,
                a < n,
                a + 1 <= b <= n,
                forall|j: int| 0 <= j < n ==> (#[trigger] discs@[j])@ == discriminator(kinds@[j]),
                forall|x: int, y: int|
                    0 <= x < a && x < y < n ==> discriminator(#[trigger] kinds@[x]) != discriminator(
                        #[trigger] kinds@[y],
                    ),
                forall|y: int| a < y < b ==> discriminator(kinds@[a as int]) != discriminator(#[trigger] kinds@[y]),
            decreases n - b,
        {
            if bytes_equal(discs[a].as_slice(), discs[b].as_slice()) {
                assert(discriminator(kinds@[a as int]) == discriminator(kinds@[b as int]));
                return false;
            }
            b = b + 1;
        }
        a = a + 1;
    }
    true
}

/// Parses the raw event data of a log line: the 8-byte discriminator selects
/// the kind of event (the first kind, in declaration order, whose discriminator
/// it is) and the rest must hold exactly that event's fields. Data too short
/// for a discriminator, or with an unknown one, gives `Unknown`.
pub fn parse_event_data(data: &[u8]) -> (r: Result<BridgeEvent, EventDecodeError>)
    ensures
        decoded_as(r, decode_record(data@)),
{
    if data.len() < 8 {
        return Ok(BridgeEvent::Unknown);
    }
    let prefix = slice_subrange(data, 0, 8);
    assert(prefix@ =~= data@.take(8));
    let kinds = event_kinds();
    let mut i: usize = 0;
    assert(kinds@.skip(0) =~= kinds@);
    while i < kinds.len()
        invariant
            i <= kinds@.len(),
            8 <= data@.len(),
            kinds@ == all_event_kinds(),
            prefix@ == data@.take(8),
            first_kind(all_event_kinds(), prefix@) == first_kind(kinds@.skip(i as int), prefix@),
        decreases kinds@.len() - i,
    {
        let k = kinds[i];
        let disc = discriminator_of(k);
        let ghost rest = kinds@.skip(i as int);
        assert(rest[0] == k);
        assert(rest.drop_first() =~= kinds@.skip(i + 1));
        if bytes_equal(disc.as_slice(), prefix) {
            let schema = schema_of(k);
            let body = slice_subrange(data, 8, data.len());
            assert(body@ =~= data@.skip(8));
            return match read_fields(schema.as_slice(), body) {
                Some(fs) => {
                    proof {
                        lemma_fields_rewrite(event_schema(k), body@);
                    }
                    Ok(from_fields(k, &fs))
                },
                None => Err(EventDecodeError::Malformed),
            };
        }
        i = i + 1;
    }
    assert(kinds@.skip(i as int) =~= Seq::<EventKind>::empty());
    Ok(BridgeEvent::Unknown)
}

/// The record of a known event.
pub fn encode_event(e: &BridgeEvent) -> (r: Vec<u8>)
    requires
        event_kind(*e) is Some,
        fields_encodable(event_fields(*e)),
    ensures
        r@ == event_record(event_kind(*e).unwrap(), event_fields(*e)),
{
    let k = match e {
        BridgeEvent::AdminProfileRegistered(_) => EventKind::AdminProfileRegistered,
        BridgeEvent::AdminCommKeyUpdated(_) => EventKind::AdminCommKeyUpdated,
        BridgeEvent::AdminPricesUpdated(_) => EventKind::AdminPricesUpdated,
        BridgeEvent::AdminFundsWithdrawn(_) => EventKind::AdminFundsWithdrawn,
        BridgeEvent::AdminProfileClosed(_) => EventKind::AdminProfileClosed,
        BridgeEvent::AdminCommandDispatched(_) => EventKind::AdminCommandDispatched,
        BridgeEvent::UserProfileCreated(_) => EventKind::UserProfileCreated,
        BridgeEvent::UserCommKeyUpdated(_) => EventKind::UserCommKeyUpdated,
        BridgeEvent::UserFundsDeposited(_) => EventKind::UserFundsDeposited,
        BridgeEvent::UserFundsWithdrawn(_) => EventKind::UserFundsWithdrawn,
        BridgeEvent::UserProfileClosed(_) => EventKind::UserProfileClosed,
        BridgeEvent::UserCommandDispatched(_) => EventKind::UserCommandDispatched,
        BridgeEvent::OffChainActionLogged(_) => EventKind::OffChainActionLogged,
        BridgeEvent::Unknown => {
            proof {
                assert(false);
            }
            EventKind::AdminProfileRegistered
        },
    };
    let mut r = discriminator_of(k);
    let fs = to_fields(e);
    let mut body = write_fields(&fs);
    r.append(&mut body);
    r
}

/// The prefix the runtime puts before the base64 form of event data in a
/// transaction log line.
pub open spec fn program_data_prefix() -> &'static str {
    "Program data: "
}

/// What a log line yields: the event when the line is `Program data: ` followed
/// by (after trimming) the base64 form of a well-formed event record, and
/// `Unknown` in every other case.
pub open spec fn log_line_outcome(log: Seq<char>) -> RecordOutcome {
    let p = program_data_prefix()@;
    if p.len() <= log.len() && log.take(p.len() as int) == p {
        match spec_base64_decode(spec_trim(log.skip(p.len() as int))) {
            Some(bytes) => match decode_record(bytes) {
                RecordOutcome::Event(k, fs) => RecordOutcome::Event(k, fs),
                _ => RecordOutcome::Unknown,
            },
            None => RecordOutcome::Unknown,
        }
    } else {
        RecordOutcome::Unknown
    }
}

/// What the text after the prefix of a log line yields when it needs no
/// trimming.
pub open spec fn data_text_outcome(t: Seq<char>) -> RecordOutcome {
    match spec_base64_decode(t) {
        Some(bytes) => match decode_record(bytes) {
            RecordOutcome::Event(k, fs) => RecordOutcome::Event(k, fs),
            _ => RecordOutcome::Unknown,
        },
        None => RecordOutcome::Unknown,
    }
}

/// The line starts with `Program data: `.
pub open spec fn has_data_prefix(log: Seq<char>) -> bool {
    let p = program_data_prefix()@;
    p.len() <= log.len() && log.take(p.len() as int) == p
}

/// The text after the `Program data: ` prefix.
pub open spec fn data_text(log: Seq<char>) -> Seq<char> {
    log.skip(program_data_prefix()@.len() as int)
}

/// Extracts the event from a program log line, if it holds one. Lines that do
/// not hold a known, well-formed event give `Unknown`; no line gives an error.
pub fn try_parse_log(log: &str) -> (r: Result<BridgeEvent, EventDecodeError>)
    ensures
        decoded_as(r, log_line_outcome(log@)),
        r is Ok,
        has_data_prefix(log@) && no_edge_whitespace(data_text(log@)) ==> decoded_as(
            r,
            data_text_outcome(data_text(log@)),
        ),
{
    let prefix: &str = "Program data: ";
    proof {
        reveal_strlit("Program data: ");
        if has_data_prefix(log@) && no_edge_whitespace(data_text(log@)) {
            let t = data_text(log@);
            lemma_trim_surrounded(Seq::<char>::empty(), t, Seq::<char>::empty());
            assert(Seq::<char>::empty() + t + Seq::<char>::empty() =~= t);
        }
    }
    if let Some(data_str) = strip_prefix(log, prefix) {
        if let Some(bytes) = base64_decode(trim(data_str)) {
            if let Ok(event) = parse_event_data(bytes.as_slice()) {
                if !matches!(event, BridgeEvent::Unknown) {
                    return Ok(event);
                }
            }
        }
    }
    Ok(BridgeEvent::Unknown)
}

/// The log line the runtime writes for an emitted event: `Program data: `
/// followed by the base64 form of the event's record.
pub fn emitted_log_line(e: &BridgeEvent) -> (r: String)
    requires
        event_kind(*e) is Some,
        fields_encodable(event_fields(*e)),
    ensures
        has_data_prefix(r@),
        no_edge_whitespace(data_text(r@)),
        spec_base64_decode(data_text(r@)) == Some(
            event_record(event_kind(*e).unwrap(), event_fields(*e)),
        ),
{
    let record = encode_event(e);
    let text = base64_encode(record.as_slice());
    let mut line = "Program data: ".to_owned();
    proof {
        reveal_strlit("Program data: ");
    }
    push_str(&mut line, text.as_str());
    let ghost p = program_data_prefix()@;
    assert(line@.take(p.len() as int) =~= p);
    assert(data_text(line@) =~= text@);
    proof {
        if text@.len() > 0 {
            assert(is_base64_char(text@[0]));
            assert(is_base64_char(text@[text@.len() - 1]));
        }
    }
    line
}

/// A line the runtime writes for an emitted event parses back as the same
/// kind of event with the same fields, provided no two kinds of event share a
/// discriminator (which `check_discriminators_distinct` establishes).
pub proof fn lemma_emitted_line_parses(line: Seq<char>, e: BridgeEvent)
    requires
        discriminators_distinct(),
        event_kind(e) is Some,
        fields_encodable(event_fields(e)),
        spec_base64_decode(data_text(line)) == Some(
            event_record(event_kind(e).unwrap(), event_fields(e)),
        ),
    ensures
        data_text_outcome(data_text(line)) == RecordOutcome::Event(
            event_kind(e).unwrap(),
            event_fields(e),
        ),
{
    lemma_event_schema_of(e);
    lemma_event_record_roundtrip(event_kind(e).unwrap(), event_fields(e));
}

/// A line the runtime writes for an emitted event, followed by any amount of
/// white space, parses back as the same kind of event with the same fields,
/// provided no two kinds of event share a discriminator.
pub proof fn lemma_padded_line_parses(line: Seq<char>, pad: Seq<char>, e: BridgeEvent)
    requires
        discriminators_distinct(),
        event_kind(e) is Some,
        fields_encodable(event_fields(e)),
        has_data_prefix(line),
        no_edge_whitespace(data_text(line)),
        spec_base64_decode(data_text(line)) == Some(
            event_record(event_kind(e).unwrap(), event_fields(e)),
        ),
        all_whitespace(pad),
    ensures
        log_line_outcome(line + pad) == RecordOutcome::Event(
            event_kind(e).unwrap(),
            event_fields(e),
        ),
{
    let p = program_data_prefix()@;
    let t = data_text(line);
    let padded = line + pad;
    assert(padded.take(p.len() as int) =~= line.take(p.len() as int));
    assert(padded.skip(p.len() as int) =~= Seq::<char>::empty() + t + pad);
    lemma_trim_surrounded(Seq::<char>::empty(), t, pad);
    lemma_emitted_line_parses(line, e);
}

/// The discriminator of each event is the one the framework gives the event
/// struct of the same name: the first 8 bytes of the SHA-256 digest of
/// `event:` followed by the struct's name; and each event is of the kind
/// named after it.
pub proof fn lemma_event_discriminators_name_their_structs(e: BridgeEvent)
    ensures
        e matches BridgeEvent::AdminProfileRegistered(_) ==> event_kind(e) == Some(EventKind::AdminProfileRegistered)
            && discriminator(EventKind::AdminProfileRegistered) == spec_sha256("event:AdminProfileRegistered".spec_bytes()).take(8),
        e matches BridgeEvent::AdminCommKeyUpdated(_) ==> event_kind(e) == Some(EventKind::AdminCommKeyUpdated)
            && discriminator(EventKind::AdminCommKeyUpdated) == spec_sha256("event:AdminCommKeyUpdated".spec_bytes()).take(8),
        e matches BridgeEvent::AdminPricesUpdated(_) ==> event_kind(e) == Some(EventKind::AdminPricesUpdated)
            && discriminator(EventKind::AdminPricesUpdated) == spec_sha256("event:AdminPricesUpdated".spec_bytes()).take(8),
        e matches BridgeEvent::AdminFundsWithdrawn(_) ==> event_kind(e) == Some(EventKind::AdminFundsWithdrawn)
            && discriminator(EventKind::AdminFundsWithdrawn) == spec_sha256("event:AdminFundsWithdrawn".spec_bytes()).take(8),
        e matches BridgeEvent::AdminProfileClosed(_) ==> event_kind(e) == Some(EventKind::AdminProfileClosed)
            && discriminator(EventKind::AdminProfileClosed) == spec_sha256("event:AdminProfileClosed".spec_bytes()).take(8),
        e matches BridgeEvent::AdminCommandDispatched(_) ==> event_kind(e) == Some(EventKind::AdminCommandDispatched)
            && discriminator(EventKind::AdminCommandDispatched) == spec_sha256("event:AdminCommandDispatched".spec_bytes()).take(8),
        e matches BridgeEvent::UserProfileCreated(_) ==> event_kind(e) == Some(EventKind::UserProfileCreated)
            && discriminator(EventKind::UserProfileCreated) == spec_sha256("event:UserProfileCreated".spec_bytes()).take(8),
        e matches BridgeEvent::UserCommKeyUpdated(_) ==> event_kind(e) == Some(EventKind::UserCommKeyUpdated)
            && discriminator(EventKind::UserCommKeyUpdated) == spec_sha256("event:UserCommKeyUpdated".spec_bytes()).take(8),
        e matches BridgeEvent::UserFundsDeposited(_) ==> event_kind(e) == Some(EventKind::UserFundsDeposited)
            && discriminator(EventKind::UserFundsDeposited) == spec_sha256("event:UserFundsDeposited".spec_bytes()).take(8),
        e matches BridgeEvent::UserFundsWithdrawn(_) ==> event_kind(e) == Some(EventKind::UserFundsWithdrawn)
            && discriminator(EventKind::UserFundsWithdrawn) == spec_sha256("event:UserFundsWithdrawn".spec_bytes()).take(8),
        e matches BridgeEvent::UserProfileClosed(_) ==> event_kind(e) == Some(EventKind::UserProfileClosed)
            && discriminator(EventKind::UserProfileClosed) == spec_sha256("event:UserProfileClosed".spec_bytes()).take(8),
        e matches BridgeEvent::UserCommandDispatched(_) ==> event_kind(e) == Some(EventKind::UserCommandDispatched)
            && discriminator(EventKind::UserCommandDispatched) == spec_sha256("event:UserCommandDispatched".spec_bytes()).take(8),
        e matches BridgeEvent::OffChainActionLogged(_) ==> event_kind(e) == Some(EventKind::OffChainActionLogged)
            && discriminator(EventKind::OffChainActionLogged) == spec_sha256("event:OffChainActionLogged".spec_bytes()).take(8),
        e matches BridgeEvent::Unknown ==> event_kind(e) is None,
{
}

/// The fields of each event are those of the program's event struct of the
/// same name, in declaration order.
pub proof fn lemma_event_fields_follow_the_structs(e: BridgeEvent)
    ensures
        e matches BridgeEvent::AdminProfileRegistered(x) ==> event_fields(e) == seq![FieldData::Key(x.authority), FieldData::Key(x.communication_pubkey), FieldData::I64(x.ts)],
        e matches BridgeEvent::AdminCommKeyUpdated(x) ==> event_fields(e) == seq![FieldData::Key(x.authority), FieldData::Key(x.new_comm_pubkey), FieldData::I64(x.ts)],
        e matches BridgeEvent::AdminPricesUpdated(x) ==> event_fields(e) == seq![FieldData::Key(x.authority), FieldData::Prices(x.new_prices@), FieldData::I64(x.ts)],
        e matches BridgeEvent::AdminFundsWithdrawn(x) ==> event_fields(e) == seq![FieldData::Key(x.authority), FieldData::U64(x.amount), FieldData::Key(x.destination), FieldData::I64(x.ts)],
        e matches BridgeEvent::AdminProfileClosed(x) ==> event_fields(e) == seq![FieldData::Key(x.authority), FieldData::I64(x.ts)],
        e matches BridgeEvent::AdminCommandDispatched(x) ==> event_fields(e) == seq![FieldData::Key(x.sender), FieldData::Key(x.target_user_authority), FieldData::U64(x.command_id), FieldData::Bytes(x.payload@), FieldData::I64(x.ts)],
        e matches BridgeEvent::UserProfileCreated(x) ==> event_fields(e) == seq![FieldData::Key(x.authority), FieldData::Key(x.target_admin), FieldData::Key(x.communication_pubkey), FieldData::I64(x.ts)],
        e matches BridgeEvent::UserCommKeyUpdated(x) ==> event_fields(e) == seq![FieldData::Key(x.authority), FieldData::Key(x.new_comm_pubkey), FieldData::I64(x.ts)],
        e matches BridgeEvent::UserFundsDeposited(x) ==> event_fields(e) == seq![FieldData::Key(x.authority), FieldData::U64(x.amount), FieldData::U64(x.new_deposit_balance), FieldData::I64(x.ts)],
        e matches BridgeEvent::UserFundsWithdrawn(x) ==> event_fields(e) == seq![FieldData::Key(x.authority), FieldData::U64(x.amount), FieldData::Key(x.destination), FieldData::U64(x.new_deposit_balance), FieldData::I64(x.ts)],
        e matches BridgeEvent::UserProfileClosed(x) ==> event_fields(e) == seq![FieldData::Key(x.authority), FieldData::I64(x.ts)],
        e matches BridgeEvent::UserCommandDispatched(x) ==> event_fields(e) == seq![FieldData::Key(x.sender), FieldData::Key(x.target_admin_authority), FieldData::U16(x.command_id), FieldData::U64(x.price_paid), FieldData::Bytes(x.payload@), FieldData::I64(x.ts)],
        e matches BridgeEvent::OffChainActionLogged(x) ==> event_fields(e) == seq![FieldData::Key(x.actor), FieldData::U64(x.session_id), FieldData::U16(x.action_code), FieldData::I64(x.ts)],
{
}

/// The record of each event, as the program writes it: the first 8 bytes of
/// the SHA-256 digest of `event:` and the struct's name, then the struct's
/// fields in declaration order, integers in little-endian order, addresses as
/// their 32 bytes and lists after their 4-byte little-endian length.
pub proof fn lemma_event_record_layout(e: BridgeEvent)
    ensures
        e matches BridgeEvent::AdminProfileRegistered(x) ==> event_record(EventKind::AdminProfileRegistered, event_fields(e))
            == spec_sha256("event:AdminProfileRegistered".spec_bytes()).take(8) + x.authority.bytes() + x.communication_pubkey.bytes() + spec_u64_to_le_bytes(x.ts as u64),
        e matches BridgeEvent::AdminCommKeyUpdated(x) ==> event_record(EventKind::AdminCommKeyUpdated, event_fields(e))
            == spec_sha256("event:AdminCommKeyUpdated".spec_bytes()).take(8) + x.authority.bytes() + x.new_comm_pubkey.bytes() + spec_u64_to_le_bytes(x.ts as u64),
        e matches BridgeEvent::AdminPricesUpdated(x) ==> event_record(EventKind::AdminPricesUpdated, event_fields(e))
            == spec_sha256("event:AdminPricesUpdated".spec_bytes()).take(8) + x.authority.bytes() + (spec_u32_to_le_bytes(x.new_prices@.len() as u32) + enc_price_list(x.new_prices@)) + spec_u64_to_le_bytes(x.ts as u64),
        e matches BridgeEvent::AdminFundsWithdrawn(x) ==> event_record(EventKind::AdminFundsWithdrawn, event_fields(e))
            == spec_sha256("event:AdminFundsWithdrawn".spec_bytes()).take(8) + x.authority.bytes() + spec_u64_to_le_bytes(x.amount) + x.destination.bytes() + spec_u64_to_le_bytes(x.ts as u64),
        e matches BridgeEvent::AdminProfileClosed(x) ==> event_record(EventKind::AdminProfileClosed, event_fields(e))
            == spec_sha256("event:AdminProfileClosed".spec_bytes()).take(8) + x.authority.bytes() + spec_u64_to_le_bytes(x.ts as u64),
        e matches BridgeEvent::AdminCommandDispatched(x) ==> event_record(EventKind::AdminCommandDispatched, event_fields(e))
            == spec_sha256("event:AdminCommandDispatched".spec_bytes()).take(8) + x.sender.bytes() + x.target_user_authority.bytes() + spec_u64_to_le_bytes(x.command_id) + (spec_u32_to_le_bytes(x.payload@.len() as u32) + x.payload@) + spec_u64_to_le_bytes(x.ts as u64),
        e matches BridgeEvent::UserProfileCreated(x) ==> event_record(EventKind::UserProfileCreated, event_fields(e))
            == spec_sha256("event:UserProfileCreated".spec_bytes()).take(8) + x.authority.bytes() + x.target_admin.bytes() + x.communication_pubkey.bytes() + spec_u64_to_le_bytes(x.ts as u64),
        e matches BridgeEvent::UserCommKeyUpdated(x) ==> event_record(EventKind::UserCommKeyUpdated, event_fields(e))
            == spec_sha256("event:UserCommKeyUpdated".spec_bytes()).take(8) + x.authority.bytes() + x.new_comm_pubkey.bytes() + spec_u64_to_le_bytes(x.ts as u64),
        e matches BridgeEvent::UserFundsDeposited(x) ==> event_record(EventKind::UserFundsDeposited, event_fields(e))
            == spec_sha256("event:UserFundsDeposited".spec_bytes()).take(8) + x.authority.bytes() + spec_u64_to_le_bytes(x.amount) + spec_u64_to_le_bytes(x.new_deposit_balance) + spec_u64_to_le_bytes(x.ts as u64),
        e matches BridgeEvent::UserFundsWithdrawn(x) ==> event_record(EventKind::UserFundsWithdrawn, event_fields(e))
            == spec_sha256("event:UserFundsWithdrawn".spec_bytes()).take(8) + x.authority.bytes() + spec_u64_to_le_bytes(x.amount) + x.destination.bytes() + spec_u64_to_le_bytes(x.new_deposit_balance) + spec_u64_to_le_bytes(x.ts as u64),
        e matches BridgeEvent::UserProfileClosed(x) ==> event_record(EventKind::UserProfileClosed, event_fields(e))
            == spec_sha256("event:UserProfileClosed".spec_bytes()).take(8) + x.authority.bytes() + spec_u64_to_le_bytes(x.ts as u64),
        e matches BridgeEvent::UserCommandDispatched(x) ==> event_record(EventKind::UserCommandDispatched, event_fields(e))
            == spec_sha256("event:UserCommandDispatched".spec_bytes()).take(8) + x.sender.bytes() + x.target_admin_authority.bytes() + spec_u16_to_le_bytes(x.command_id) + spec_u64_to_le_bytes(x.price_paid) + (spec_u32_to_le_bytes(x.payload@.len() as u32) + x.payload@) + spec_u64_to_le_bytes(x.ts as u64),
        e matches BridgeEvent::OffChainActionLogged(x) ==> event_record(EventKind::OffChainActionLogged, event_fields(e))
            == spec_sha256("event:OffChainActionLogged".spec_bytes()).take(8) + x.actor.bytes() + spec_u64_to_le_bytes(x.session_id) + spec_u16_to_le_bytes(x.action_code) + spec_u64_to_le_bytes(x.ts as u64),
{
    reveal_with_fuel(enc_fields, 7);
    let fs = event_fields(e);
    if fs.len() > 0 {
        assert(fs.drop_first().drop_first() =~= fs.subrange(2, fs.len() as int));
    }
    match e {
        BridgeEvent::Unknown => {},
        _ => {
            let d = event_record(event_kind(e).unwrap(), fs);
            assert(d == discriminator(event_kind(e).unwrap()) + enc_fields(fs));
        },
    }
}

/// A kind listed at position `j` of `ks`, whose discriminator differs from that
/// of every kind before it, is the first kind its discriminator selects.
proof fn lemma_first_kind_finds(ks: Seq<EventKind>, j: int)
    requires
        0 <= j < ks.len(),
        forall|i: int| 0 <= i < j ==> discriminator(#[trigger] ks[i]) != discriminator(ks[j]),
    ensures
        first_kind(ks, discriminator(ks[j])) == Some(ks[j]),
    decreases j,
{
    if j > 0 {
        let tail = ks.drop_first();
        assert forall|i: int| 0 <= i < j - 1 implies discriminator(#[trigger] tail[i]) != discriminator(
            tail[j - 1],
        ) by {
            assert(tail[i] == ks[i + 1]);
        }
        lemma_first_kind_finds(tail, j - 1);
        assert(tail[j - 1] == ks[j]);
        assert(discriminator(ks[0]) != discriminator(ks[j]));
    }
}

/// Every kind of event is listed among the kinds tried.
proof fn lemma_kind_listed(k: EventKind) -> (j: int)
    ensures
        0 <= j < all_event_kinds().len(),
        all_event_kinds()[j] == k,
{
    let ks = all_event_kinds();
    match k {
        EventKind::AdminProfileRegistered => 0,
        EventKind::AdminCommKeyUpdated => 1,
        EventKind::AdminPricesUpdated => 2,
        EventKind::AdminFundsWithdrawn => 3,
        EventKind::AdminProfileClosed => 4,
        EventKind::AdminCommandDispatched => 5,
        EventKind::UserProfileCreated => 6,
        EventKind::UserCommKeyUpdated => 7,
        EventKind::UserFundsDeposited => 8,
        EventKind::UserFundsWithdrawn => 9,
        EventKind::UserProfileClosed => 10,
        EventKind::UserCommandDispatched => 11,
        EventKind::OffChainActionLogged => 12,
    }
}

/// Decoding the record of an event gives the event back, provided no two
/// kinds of event share a discriminator.
pub proof fn lemma_event_record_roundtrip(k: EventKind, fs: Seq<FieldData>)
    requires
        discriminators_distinct(),
        kinds_of(fs) == event_schema(k),
        fields_encodable(fs),
    ensures
        decode_record(event_record(k, fs)) == RecordOutcome::Event(k, fs),
{
    let d = event_record(k, fs);
    let disc = discriminator(k);
    assert(disc.len() == 8);
    assert(d.take(8) =~= disc);
    assert(d.skip(8) =~= enc_fields(fs));
    let j = lemma_kind_listed(k);
    let ks = all_event_kinds();
    assert forall|i: int| 0 <= i < j implies discriminator(#[trigger] ks[i]) != discriminator(ks[j]) by {}
    lemma_first_kind_finds(ks, j);
    lemma_fields_roundtrip(fs);
}

/// A record that decodes to an event is exactly that event's record: the
/// decoding is canonical.
pub proof fn lemma_decoded_record_canonical(d: Seq<u8>)
    requires
        discriminators_distinct(),
        decode_record(d) is Event,
    ensures
        ({
            let (k, fs) = (decode_record(d)->Event_0, decode_record(d)->Event_1);
            &&& event_record(k, fs) == d
            &&& kinds_of(fs) == event_schema(k)
            &&& fields_encodable(fs)
        }),
{
    let k = first_kind(all_event_kinds(), d.take(8)).unwrap();
    lemma_first_kind_matches(all_event_kinds(), d.take(8));
    lemma_fields_rewrite(event_schema(k), d.skip(8));
    assert(d.take(8) + d.skip(8) =~= d);
}

proof fn lemma_first_kind_matches(ks: Seq<EventKind>, prefix: Seq<u8>)
    requires
        first_kind(ks, prefix) is Some,
    ensures
        discriminator(first_kind(ks, prefix).unwrap()) == prefix,
    decreases ks.len(),
{
    if ks.len() > 0 && discriminator(ks[0]) != prefix {
        lemma_first_kind_matches(ks.drop_first(), prefix);
    }
}

/// Writing an event and parsing the record gives the same event back, provided
/// no two kinds of event share a discriminator.
pub proof fn lemma_parse_encoded_event(e: BridgeEvent, r: Result<BridgeEvent, EventDecodeError>)
    requires
        discriminators_distinct(),
        event_kind(e) is Some,
        fields_encodable(event_fields(e)),
        decoded_as(r, decode_record(event_record(event_kind(e).unwrap(), event_fields(e)))),
    ensures
        r is Ok,
        event_kind(r->Ok_0) == event_kind(e),
        event_fields(r->Ok_0) == event_fields(e),
{
    lemma_event_schema_of(e);
    lemma_event_record_roundtrip(event_kind(e).unwrap(), event_fields(e));
}

/// The fields of an event have the field kinds of its kind.
pub proof fn lemma_event_schema_of(e: BridgeEvent)
    requires
        event_kind(e) is Some,
    ensures
        kinds_of(event_fields(e)) == event_schema(event_kind(e).unwrap()),
{
    assert(kinds_of(event_fields(e)) =~= event_schema(event_kind(e).unwrap()));
}


} // verus!
