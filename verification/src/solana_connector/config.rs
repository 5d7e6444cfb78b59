//! The connector's configuration and its defaults.
use vstd::prelude::*;

verus! {

/// The name lowered to lower case by `str::to_lowercase`.
pub uninterp spec fn spec_to_lowercase(s: Seq<char>) -> Seq<char>;

/// The character is ASCII.
pub open spec fn is_ascii_char(c: char) -> bool {
    (c as u32) < 128
}

/// Every character of the text is ASCII.
pub open spec fn is_ascii_text(s: Seq<char>) -> bool {
    forall|i: int| 0 <= i < s.len() ==> is_ascii_char(#[trigger] s[i])
}

/// An ASCII upper-case letter lowered; every other character unchanged.
pub open spec fn ascii_lower_char(c: char) -> char {
    if 65 <= (c as u32) && (c as u32) <= 90 {
        ((c as u32) + 32) as char
    } else {
        c
    }
}

/// The text with its ASCII upper-case letters lowered.
pub open spec fn ascii_lowercase(s: Seq<char>) -> Seq<char> {
    s.map_values(|c: char| ascii_lower_char(c))
}

/// Calls `str::to_lowercase`. The contract claims that the result is the
/// named lower-case form of the argument, and that on ASCII text it lowers
/// exactly the letters `A`-`Z` (as `to_ascii_lowercase` does), which is what
/// its documentation and that of `char::to_lowercase` give for ASCII.
#[verifier::external_body]
fn to_lowercase(s: &str) -> (r: String)
    ensures
        r@ == spec_to_lowercase(s@),
        is_ascii_text(s@) ==> r@ == ascii_lowercase(s@),
{
    s.to_lowercase()
}

/// How final the state that the connector reads must be.
#[derive(Clone, Copy, Debug, PartialEq, Eq, Structural)]
pub enum CommitmentLevel {
    Processed,
    Confirmed,
    Finalized,
}

/// The name a commitment level is written as.
pub open spec fn spec_commitment_name(c: CommitmentLevel) -> Seq<char> {
    match c {
        CommitmentLevel::Processed => "Processed"@,
        CommitmentLevel::Confirmed => "Confirmed"@,
        CommitmentLevel::Finalized => "Finalized"@,
    }
}

/// The commitment levels are written `Processed`, `Confirmed` and
/// `Finalized`, and read from `processed`, `confirmed` and `finalized` once
/// lowered; any other name reads as `Confirmed`.
pub proof fn lemma_commitment_names(lower: Seq<char>)
    ensures
        spec_commitment_name(CommitmentLevel::Processed) == "Processed"@,
        spec_commitment_name(CommitmentLevel::Confirmed) == "Confirmed"@,
        spec_commitment_name(CommitmentLevel::Finalized) == "Finalized"@,
        commitment_of_lowered("processed"@) == CommitmentLevel::Processed,
        commitment_of_lowered("confirmed"@) == CommitmentLevel::Confirmed,
        commitment_of_lowered("finalized"@) == CommitmentLevel::Finalized,
        lower != "processed"@ && lower != "finalized"@ ==> commitment_of_lowered(lower)
            == CommitmentLevel::Confirmed,
{
    reveal_strlit("processed");
    reveal_strlit("confirmed");
    reveal_strlit("finalized");
    assert("confirmed"@[0] != "processed"@[0]);
    assert("finalized"@[0] != "processed"@[0]);
    assert("finalized"@[0] != "confirmed"@[0]);
}

/// The name a commitment level is written as.
pub fn commitment_name(c: CommitmentLevel) -> (r: String)
    ensures
        r@ == spec_commitment_name(c),
{
    match c {
        CommitmentLevel::Processed => "Processed".to_owned(),
        CommitmentLevel::Confirmed => "Confirmed".to_owned(),
        CommitmentLevel::Finalized => "Finalized".to_owned(),
    }
}

/// The commitment level a lower-cased name reads as; an unknown name reads
/// as `Confirmed`.
pub open spec fn commitment_of_lowered(lower: Seq<char>) -> CommitmentLevel {
    if lower == "processed"@ {
        CommitmentLevel::Processed
    } else if lower == "confirmed"@ {
        CommitmentLevel::Confirmed
    } else if lower == "finalized"@ {
        CommitmentLevel::Finalized
    } else {
        CommitmentLevel::Confirmed
    }
}

/// The commitment level a name reads as, in any case; an unknown name reads
/// as `Confirmed`.
pub open spec fn spec_commitment_from_name(name: Seq<char>) -> CommitmentLevel {
    commitment_of_lowered(spec_to_lowercase(name))
}

/// The commitment level a name reads as. An ASCII name is read whatever the
/// case of its letters.
pub fn commitment_from_name(name: &str) -> (r: CommitmentLevel)
    ensures
        r == spec_commitment_from_name(name@),
        is_ascii_text(name@) ==> r == commitment_of_lowered(ascii_lowercase(name@)),
{
    let lower = to_lowercase(name);
    if lower == "processed".to_owned() {
        CommitmentLevel::Processed
    } else if lower == "confirmed".to_owned() {
        CommitmentLevel::Confirmed
    } else if lower == "finalized".to_owned() {
        CommitmentLevel::Finalized
    } else {
        CommitmentLevel::Confirmed
    }
}

/// The name a commitment level is written as is ASCII and reads back as the
/// same level.
pub proof fn lemma_commitment_name_reads_back(c: CommitmentLevel)
    ensures
        is_ascii_text(spec_commitment_name(c)),
        commitment_of_lowered(ascii_lowercase(spec_commitment_name(c))) == c,
{
    reveal_strlit("Processed");
    reveal_strlit("Confirmed");
    reveal_strlit("Finalized");
    reveal_strlit("processed");
    reveal_strlit("confirmed");
    reveal_strlit("finalized");
    assert(ascii_lowercase("Processed"@) =~= "processed"@);
    assert(ascii_lowercase("Confirmed"@) =~= "confirmed"@);
    assert(ascii_lowercase("Finalized"@) =~= "finalized"@);
    assert("processed"@[0] != "confirmed"@[0]);
    assert("processed"@[0] != "finalized"@[0]);
    assert("confirmed"@[0] != "finalized"@[0]);
}

/// Where the connector reaches the Solana node.
#[derive(Clone, Debug)]
pub struct Solana {
    pub rpc_url: String,
    pub ws_url: String,
    pub commitment: CommitmentLevel,
}

/// How the catch-up worker synchronises.
#[derive(Clone, Copy, Debug, PartialEq, Eq, Structural)]
pub struct Synchronizer {
    /// How many slots behind the current one catch-up reaches; no limit when
    /// `None`.
    pub max_catchup_depth: Option<u64>,
    /// Seconds between two catch-up rounds.
    pub poll_interval_secs: u64,
    /// How many signatures one page request asks for.
    pub max_signature_fetch: usize,
}

/// The capacities of the connector's channels.
#[derive(Clone, Copy, Debug, PartialEq, Eq, Structural)]
pub struct ChannelConfig {
    pub dispatcher_event_buffer: usize,
    pub dispatcher_command_buffer: usize,
    pub listener_event_buffer: usize,
}

/// The connector's configuration.
#[derive(Clone, Debug)]
pub struct ConnectorConfig {
    pub solana: Solana,
    pub synchronizer: Synchronizer,
    pub channels: ChannelConfig,
}

/// The default node: a local validator, read at `Confirmed`.
pub open spec fn is_default_solana(s: Solana) -> bool {
    &&& s.rpc_url@ == "http://127.0.0.1:8899"@
    &&& s.ws_url@ == "ws://127.0.0.1:8900"@
    &&& s.commitment == CommitmentLevel::Confirmed
}

/// The default synchronisation: no depth limit, a round every 3 seconds,
/// pages of 1000 signatures.
pub open spec fn default_synchronizer() -> Synchronizer {
    Synchronizer { max_catchup_depth: None, poll_interval_secs: 3, max_signature_fetch: 1000 }
}

/// The default channel capacities.
pub open spec fn default_channels() -> ChannelConfig {
    ChannelConfig {
        dispatcher_event_buffer: 256,
        dispatcher_command_buffer: 128,
        listener_event_buffer: 128,
    }
}

impl Default for Solana {
    fn default() -> (r: Self)
        ensures
            is_default_solana(r),
    {
        Solana {
            rpc_url: "http://127.0.0.1:8899".to_owned(),
            ws_url: "ws://127.0.0.1:8900".to_owned(),
            commitment: CommitmentLevel::Confirmed,
        }
    }
}

impl Default for Synchronizer {
    fn default() -> (r: Self)
        ensures
            r == default_synchronizer(),
    {
        Synchronizer { max_catchup_depth: None, poll_interval_secs: 3, max_signature_fetch: 1000 }
    }
}

impl Default for ChannelConfig {
    fn default() -> (r: Self)
        ensures
            r == default_channels(),
    {
        ChannelConfig {
            dispatcher_event_buffer: 256,
            dispatcher_command_buffer: 128,
            listener_event_buffer: 128,
        }
    }
}

impl Default for ConnectorConfig {
    fn default() -> (r: Self)
        ensures
            is_default_solana(r.solana),
            r.synchronizer == default_synchronizer(),
            r.channels == default_channels(),
    {
        ConnectorConfig {
            solana: Solana::default(),
            synchronizer: Synchronizer::default(),
            channels: ChannelConfig::default(),
        }
    }
}

} // verus!
