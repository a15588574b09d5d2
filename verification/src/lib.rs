//! Verified core of a Home Assistant desktop companion: the stored
//! configuration, the text handling around the server URL, the
//! Home Assistant websocket session protocol and the notifications it raises,
//! and the decisions the desktop shell takes on windows, startup and updates.

pub mod config;
pub mod text;
pub mod json;
pub mod notices;
pub mod session;
pub mod desktop;
pub mod laws;
pub mod behaviour;
