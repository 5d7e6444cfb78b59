//! The off-chain connector: decoding of the program's events from transaction
//! logs, the routing of events to listeners, and the synchronisation decisions
//! of its catch-up and live workers.
pub mod events;
pub mod pda;
pub mod registry;
pub mod listener;
pub mod config;
pub mod client;
pub mod live;
pub mod server;
pub mod synchronizer;
pub mod catchup;
