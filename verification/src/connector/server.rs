//! The connector's gRPC event service.
use vstd::prelude::*;

verus! {

/// The service that streams the synchronised events to a client; it keeps no
/// state of its own.
#[derive(Default)]
pub struct BridgeServer {}

} // verus!
