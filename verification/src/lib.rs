//! A verified window-session controller.
//!
//! The library models the state of a two-window application session: which
//! window handles are held, how incoming window events are routed to a label
//! and a set of actions, and when the session terminates. All windowing and
//! DOM work is left to an unverified shell that drives these functions.

pub mod controller;
pub mod laws;
pub mod style;
