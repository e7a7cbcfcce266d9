//! Verified core of a desktop ticker-overlay orchestrator.
//!
//! The library models the window-lifecycle and interaction-mode subsystem of
//! an overlay application: one floating window per instrument symbol, a
//! process-wide "locked" (click-through) flag propagated to every overlay,
//! canonical window labels, event-channel names, and the rule that ties the
//! main window's destruction to process exit.  The platform shell performs
//! the actual window-system calls; every decision it carries out is computed
//! and proved here.

pub mod events;
pub mod hotkey;
pub mod label;
pub mod lifecycle;
pub mod registry;
pub mod window;

use vstd::prelude::*;

verus! {

/// The greeting returned to the UI for a given name.
pub fn greet(name: &String) -> (r: String)
    ensures
        r@ == "Hello, "@ + name@ + "! You've been greeted from Rust!"@,
{
    let s = String::from_str("Hello, ").concat(name.as_str());
    s.concat("! You've been greeted from Rust!")
}

} // verus!
