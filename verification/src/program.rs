//! The on-chain bridge program: its account state, errors, events, the
//! instruction handlers and the off-chain session protocol it carries.
pub mod state;
pub mod errors;
pub mod events;
pub mod accounts;
pub mod instructions;
pub mod protocols;
pub mod sm_accounts;
