//! Core logic of a frame-driven process overlay: a throttled cache of
//! handles resolved out of a live target process, and the orchestrator
//! state that drives it once per frame.
//!
//! Raw resolution of the handles (reads into another process's memory) and
//! rendering are owned by the host and stay outside this crate; callers feed
//! resolution results into the cache's transition functions.

use vstd::prelude::*;

pub mod cheat;
pub mod decryption;

verus! {

/// Kind of a key event handed in by the host's input hook.
#[derive(Clone, Copy, PartialEq, Eq, Structural)]
pub enum InputType {
    KeyDown,
    KeyUp,
}

} // verus!
