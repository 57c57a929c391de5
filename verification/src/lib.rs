//! Relay between remote clients, a math rendering engine, and a keyboard
//! driven navigation view.
//!
//! The crate holds the verified core of the system: the request protocol
//! codec, the per-connection dispatch rules of the daemon, the hardware to
//! canonical keycode table, and the keyboard navigation bridge decisions.
//! The unverified shell around it (sockets, subprocesses, the window and
//! speech services) lives outside the library and only hands plain values
//! in and out.

pub mod daemon;
pub mod engine;
pub mod keycodes;
pub mod navigation;
pub mod protocol;
