//! Relay core for a browser-to-UDP game proxy: the session-establishment state
//! machine, the channel-ready gate, the bridge's forwarding decisions, the
//! signaling wire framing and the proxy's configuration rules.
pub mod text;
pub mod config;
pub mod gate;
pub mod bridge;
pub mod signal;
pub mod session;
pub mod web;
