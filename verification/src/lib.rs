//! Access-control core for a lockable trolley.
//!
//! A contactless card is polled for, its identifier is resolved and compared
//! against an allowlist, one authenticated sector exchange runs per detected
//! card, and an authorized match drives a timed actuation profile while a
//! mismatch drives a failure indication. All hardware effects (reader
//! commands, indicator toggles, actuator duty cycles, delays) are emitted as
//! data by a verified state machine; an unverified driver performs them.

pub mod actions;
pub mod config;
pub mod controller;
pub mod identifier;
pub mod laws;
pub mod sequencer;
pub mod session;

use vstd::prelude::*;

verus! {

} // verus!
