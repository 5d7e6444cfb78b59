//! The gateway: its configuration, the command line it accepts, the event
//! messages it streams to clients and the subscriptions it keeps.
pub mod config;
pub mod cli;
pub mod events;
pub mod subscriptions;
pub mod requests;
