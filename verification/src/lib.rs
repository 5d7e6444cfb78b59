//! Verified core of the W3B2 bridge: the on-chain program's state machine,
//! the event wire format, and the routing and synchronisation decisions of the
//! off-chain connector and gateway.
#![allow(unused_imports)]

pub mod pubkey;
pub mod program;
pub mod codec;
pub mod runtime;
pub mod text;
pub mod connector;
pub mod solana_connector;
pub mod gateway;
pub mod tables;
