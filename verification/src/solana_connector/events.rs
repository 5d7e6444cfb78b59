//! Events as the connector's workers hand them on: the decoded event together
//! with the stream it came from.
use vstd::prelude::*;
use crate::codec::FieldData;
use crate::connector::events::{
    BridgeEvent as DecodedEvent, RecordOutcome, event_fields, event_kind, log_line_outcome,
    try_parse_log as parse_line,
};
use crate::program::events::EventKind;

verus! {

/// Where an event was read.
#[derive(Clone, Copy, Debug, PartialEq, Eq, Structural)]
pub enum EventSource {
    /// From the real-time stream of program logs.
    Live,
    /// From the historical transactions fetched during catch-up.
    Catchup,
}

/// The decoded event data.
pub type BridgeEventData = DecodedEvent;

/// An event and the stream it was read from.
#[derive(Clone, Debug)]
pub struct BridgeEvent {
    pub source: EventSource,
    pub data: BridgeEventData,
}

/// The line is not a program event.
#[derive(Clone, Copy, Debug, PartialEq, Eq, Structural)]
pub enum ParseLogError {
    NotAnEvent,
}

/// `e` is the event of kind `k` with fields `fs`, read from `source`.
pub open spec fn is_event(e: BridgeEvent, source: EventSource, k: EventKind, fs: Seq<FieldData>) -> bool {
    &&& e.source == source
    &&& event_kind(e.data) == Some(k)
    &&& event_fields(e.data) == fs
}

/// Reads the event a program log line holds. A line that holds no known,
/// well-formed event is refused. The event is marked as read during catch-up;
/// the live worker marks its own.
pub fn try_parse_log(log: &str) -> (r: Result<BridgeEvent, ParseLogError>)
    ensures
        match log_line_outcome(log@) {
            RecordOutcome::Event(k, fs) => r is Ok && is_event(r->Ok_0, EventSource::Catchup, k, fs),
            _ => r == Err::<BridgeEvent, ParseLogError>(ParseLogError::NotAnEvent),
        },
{
    match parse_line(log) {
        Ok(DecodedEvent::Unknown) => Err(ParseLogError::NotAnEvent),
        Ok(data) => Ok(BridgeEvent { source: EventSource::Catchup, data }),
        Err(_) => Err(ParseLogError::NotAnEvent),
    }
}

/// The events that the lines of a transaction's log hold, in order.
pub open spec fn logged_events(logs: Seq<Seq<char>>) -> Seq<(EventKind, Seq<FieldData>)>
    decreases logs.len(),
{
    if logs.len() == 0 {
        Seq::empty()
    } else {
        let rest = logged_events(logs.drop_last());
        match log_line_outcome(logs.last()) {
            RecordOutcome::Event(k, fs) => rest.push((k, fs)),
            _ => rest,
        }
    }
}

/// The text of each line.
pub open spec fn lines_view(logs: Seq<String>) -> Seq<Seq<char>> {
    logs.map_values(|l: String| l@)
}

/// The events the log lines hold, in order, each marked with `source`.
pub fn events_from_logs(logs: &Vec<String>, source: EventSource) -> (r: Vec<BridgeEvent>)
    ensures
        r@.len() == logged_events(lines_view(logs@)).len(),
        forall|i: int|
            0 <= i < r@.len() ==> is_event(
                #[trigger] r@[i],
                source,
                logged_events(lines_view(logs@))[i].0,
                logged_events(lines_view(logs@))[i].1,
            ),
{
    let ghost lines = lines_view(logs@);
    let mut out: Vec<BridgeEvent> = Vec::new();
    let mut i: usize = 0;
    while i < logs.len()
        invariant
            i <= logs@.len(),
            lines == lines_view(logs@),
            out@.len() == logged_events(lines.take(i as int)).len(),
            forall|j: int|
                0 <= j < out@.len() ==> is_event(
                    #[trigger] out@[j],
                    source,
                    logged_events(lines.take(i as int))[j].0,
                    logged_events(lines.take(i as int))[j].1,
                ),
        decreases logs@.len() - i,
    {
        let ghost before = lines.take(i as int);
        assert(lines.take(i + 1).drop_last() =~= before);
        assert(lines.take(i + 1).last() == logs@[i as int]@);
        match try_parse_log(logs[i].as_str()) {
            Ok(e) => {
                out.push(BridgeEvent { source, data: e.data });
            },
            Err(_) => {},
        }
        i = i + 1;
    }
    assert(lines.take(logs@.len() as int) =~= lines);
    out
}

} // verus!
