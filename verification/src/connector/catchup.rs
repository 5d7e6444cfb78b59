//! The decisions of the connector's catch-up worker after it has chosen the
//! signatures of a round (`solana_connector::sync`): what each fetched
//! transaction hands on, and where the stored position stands afterwards.
//!
//! The transactions of a round are processed oldest first. A transaction the
//! node fails to return is skipped and leaves the position where it was. A
//! fetched transaction moves the position to its slot and signature; its
//! events are handed on, in the order of its log lines, unless the
//! transaction is older than the maximum age, in which case none is.
use vstd::prelude::*;
use crate::connector::events::{
    BridgeEvent, RecordOutcome, event_fields, event_kind, log_line_outcome, try_parse_log,
};
use crate::codec::FieldData;
use crate::program::events::EventKind;
use crate::solana_connector::sync::{SignatureInfo, is_too_old, spec_too_old};

verus! {

/// A transaction as the node returns it: its slot, its block time when the
/// node knows it, and its log lines.
pub struct FetchedTransaction {
    pub slot: u64,
    pub block_time: Option<i64>,
    pub logs: Vec<String>,
}

/// The position catch-up has reached: the slot and signature of the last
/// transaction it processed.
pub struct SyncPosition {
    pub slot: u64,
    pub signature: String,
}

/// The text of each log line.
pub open spec fn lines_view(logs: Seq<String>) -> Seq<Seq<char>> {
    logs.map_values(|s: String| s@)
}

/// The slot and signature text of a position.
pub open spec fn position_view(p: Option<SyncPosition>) -> Option<(u64, Seq<char>)> {
    match p {
        Some(q) => Some((q.slot, q.signature@)),
        None => None,
    }
}

/// The events that the log lines hold, in order, each as its kind and its
/// fields: the lines that hold no event are passed over.
pub open spec fn known_events(logs: Seq<Seq<char>>) -> Seq<(EventKind, Seq<FieldData>)>
    decreases logs.len(),
{
    if logs.len() == 0 {
        Seq::empty()
    } else {
        let rest = known_events(logs.drop_last());
        match log_line_outcome(logs.last()) {
            RecordOutcome::Event(k, fs) => rest.push((k, fs)),
            _ => rest,
        }
    }
}

/// The events are, one for one and in order, of the kinds and with the
/// fields listed.
pub open spec fn events_match(r: Seq<BridgeEvent>, ks: Seq<(EventKind, Seq<FieldData>)>) -> bool {
    &&& r.len() == ks.len()
    &&& forall|i: int|
        0 <= i < r.len() ==> event_kind(#[trigger] r[i]) == Some(ks[i].0) && event_fields(r[i])
            == ks[i].1
}

/// The events of a transaction's log lines, in order; lines that hold no
/// event are passed over.
pub fn events_in_logs(logs: &Vec<String>) -> (r: Vec<BridgeEvent>)
    ensures
        events_match(r@, known_events(lines_view(logs@))),
{
    let mut r: Vec<BridgeEvent> = Vec::new();
    let mut i: usize = 0;
    while i < logs.len()
        invariant
            i <= logs@.len(),
            events_match(r@, known_events(lines_view(logs@).take(i as int))),
        decreases logs@.len() - i,
    {
        let ghost pre = lines_view(logs@).take(i as int);
        let ghost next = lines_view(logs@).take(i + 1);
        proof {
            assert(next.drop_last() =~= pre);
            assert(next.last() == logs@[i as int]@);
        }
        let parsed = try_parse_log(logs[i].as_str());
        match parsed {
            Ok(BridgeEvent::Unknown) => {
                assert(known_events(next) == known_events(pre));
            },
            Ok(ev) => {
                assert(known_events(next) == known_events(pre).push(
                    (event_kind(ev).unwrap(), event_fields(ev)),
                ));
                r.push(ev);
            },
            Err(_) => {},
        }
        i = i + 1;
    }
    assert(lines_view(logs@).take(logs@.len() as int) =~= lines_view(logs@));
    r
}

/// What one transaction yields to catch-up: nothing when it was not fetched
/// or is older than the maximum age, and otherwise the events of its log
/// lines.
pub open spec fn transaction_yield(tx: Option<FetchedTransaction>, now: i64, max_age_minutes: u32) -> Seq<
    (EventKind, Seq<FieldData>),
> {
    match tx {
        Some(t) => if spec_too_old(t.block_time, now, max_age_minutes) {
            Seq::empty()
        } else {
            known_events(lines_view(t.logs@))
        },
        None => Seq::empty(),
    }
}

/// Processes the transaction of one signature of the round, `fetched` being
/// what the node returned for it (`None` when it returned nothing): returns
/// the events to hand on and moves the position to the transaction.
pub fn process_transaction(
    sig: &SignatureInfo,
    fetched: &Option<FetchedTransaction>,
    now: i64,
    max_age_minutes: u32,
    position: &mut Option<SyncPosition>,
) -> (events: Vec<BridgeEvent>)
    ensures
        events_match(events@, transaction_yield(*fetched, now, max_age_minutes)),
        position_view(*final(position)) == match fetched {
            Some(t) => Some((t.slot, sig.signature@)),
            None => position_view(*old(position)),
        },
{
    match fetched {
        Some(tx) => {
            let events = if is_too_old(tx.block_time, now, max_age_minutes) {
                Vec::new()
            } else {
                events_in_logs(&tx.logs)
            };
            *position = Some(SyncPosition { slot: tx.slot, signature: sig.signature.clone() });
            events
        },
        None => Vec::new(),
    }
}

/// What the first `n` transactions of a round yield, in order.
pub open spec fn round_yield(txs: Seq<Option<FetchedTransaction>>, now: i64, max_age_minutes: u32) -> Seq<
    (EventKind, Seq<FieldData>),
>
    decreases txs.len(),
{
    if txs.len() == 0 {
        Seq::empty()
    } else {
        round_yield(txs.drop_last(), now, max_age_minutes) + transaction_yield(
            txs.last(),
            now,
            max_age_minutes,
        )
    }
}

/// The position after a round that started at `start`, the transactions
/// `txs` having been fetched for the signatures of `plan`: that of the last
/// transaction that was fetched, or `start` when none was.
pub open spec fn position_after(
    plan: Seq<SignatureInfo>,
    txs: Seq<Option<FetchedTransaction>>,
    start: Option<(u64, Seq<char>)>,
) -> Option<(u64, Seq<char>)>
    decreases txs.len(),
{
    if txs.len() == 0 {
        start
    } else {
        match txs.last() {
            Some(t) => Some((t.slot, plan[txs.len() - 1].signature@)),
            None => position_after(plan, txs.drop_last(), start),
        }
    }
}

/// Processes the transactions of a round, `fetched[i]` being what the node
/// returned for the signature `plan[i]`: returns the events to hand on, in
/// order, and leaves the position at the last transaction fetched.
pub fn process_round(
    plan: &Vec<SignatureInfo>,
    fetched: &Vec<Option<FetchedTransaction>>,
    now: i64,
    max_age_minutes: u32,
    position: &mut Option<SyncPosition>,
) -> (events: Vec<BridgeEvent>)
    requires
        fetched@.len() == plan@.len(),
    ensures
        events_match(events@, round_yield(fetched@, now, max_age_minutes)),
        position_view(*final(position)) == position_after(
            plan@,
            fetched@,
            position_view(*old(position)),
        ),
{
    let ghost start = position_view(*position);
    let mut events: Vec<BridgeEvent> = Vec::new();
    let mut i: usize = 0;
    while i < fetched.len()
        invariant
            i <= fetched@.len(),
            fetched@.len() == plan@.len(),
            events_match(events@, round_yield(fetched@.take(i as int), now, max_age_minutes)),
            position_view(*position) == position_after(plan@, fetched@.take(i as int), start),
        decreases fetched@.len() - i,
    {
        let ghost pre = fetched@.take(i as int);
        let ghost next = fetched@.take(i + 1);
        let ghost before = events@;
        proof {
            assert(next.drop_last() =~= pre);
            assert(next.last() == fetched@[i as int]);
        }
        let mut step = process_transaction(&plan[i], &fetched[i], now, max_age_minutes, position);
        let ghost added = step@;
        events.append(&mut step);
        proof {
            let a = round_yield(pre, now, max_age_minutes);
            let b = transaction_yield(fetched@[i as int], now, max_age_minutes);
            assert(round_yield(next, now, max_age_minutes) == a + b);
            assert forall|j: int| 0 <= j < events@.len() implies event_kind(#[trigger] events@[j])
                == Some((a + b)[j].0) && event_fields(events@[j]) == (a + b)[j].1 by {
                if j < before.len() {
                    assert(events@[j] == before[j]);
                } else {
                    assert(events@[j] == added[j - before.len()]);
                }
            }
        }
        i = i + 1;
    }
    assert(fetched@.take(fetched@.len() as int) =~= fetched@);
    events
}

/// A round split in two hands on the same events, in the same order, as the
/// whole round: the events of the first part, then those of the second.
pub proof fn lemma_round_yield_append(
    txs: Seq<Option<FetchedTransaction>>,
    more: Seq<Option<FetchedTransaction>>,
    now: i64,
    max_age_minutes: u32,
)
    ensures
        round_yield(txs + more, now, max_age_minutes) == round_yield(txs, now, max_age_minutes)
            + round_yield(more, now, max_age_minutes),
    decreases more.len(),
{
    if more.len() == 0 {
        assert(txs + more =~= txs);
        assert(round_yield(txs, now, max_age_minutes) + Seq::empty() =~= round_yield(
            txs,
            now,
            max_age_minutes,
        ));
    } else {
        assert((txs + more).drop_last() =~= txs + more.drop_last());
        assert((txs + more).last() == more.last());
        lemma_round_yield_append(txs, more.drop_last(), now, max_age_minutes);
        assert(round_yield(txs, now, max_age_minutes) + round_yield(
            more.drop_last(),
            now,
            max_age_minutes,
        ) + transaction_yield(more.last(), now, max_age_minutes) =~= round_yield(
            txs,
            now,
            max_age_minutes,
        ) + (round_yield(more.drop_last(), now, max_age_minutes) + transaction_yield(
            more.last(),
            now,
            max_age_minutes,
        )));
    }
}

} // verus!
