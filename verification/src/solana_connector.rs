//! The event system of the connector to the deployed program: events marked
//! with their source, the dispatcher that routes them to listeners, the
//! synchronisation decisions of the catch-up and live workers, the
//! connector's configuration and the client-side checks of its transaction
//! builders.
pub mod events;
pub mod dispatcher;
pub mod sync;
pub mod sync_state;
pub mod config;
pub mod client;
