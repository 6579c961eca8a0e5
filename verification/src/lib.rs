//! Relay a phone browser's touch gestures to a desktop machine as real input.
//!
//! A small web server (kept outside this library) streams discrete input
//! events over a persistent socket.  This crate holds the verified core of
//! that relay: the codec that turns one textual frame into a tagged command,
//! the dispatcher that maps a command to the exact sequence of input-device
//! actions, the per-connection session state machine that serialises those
//! actions, and the decision logic behind the tray menu and the autostart
//! toggle.

pub mod codec;
pub mod dispatch;
pub mod frame;
pub mod laws;
pub mod menu;
pub mod session;
pub mod startup;
