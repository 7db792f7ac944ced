//! Protocol values and connection logic of the web editor bridge.
pub mod ids;
pub mod protocol;
pub mod server;
