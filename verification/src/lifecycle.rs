//! The application lifecycle guard.
//!
//! The main control window is distinguished: its destruction — and only
//! its destruction — is the signal to terminate the whole process.  The
//! shell watches destroy events and consults this decision.

use vstd::prelude::*;
use crate::label::label_of;

verus! {

/// The fixed label of the main control window.
pub open spec fn main_label() -> Seq<char> {
    "main"@
}

/// Whether destruction of the window registered under `label` must be
/// followed by process termination: exactly when it is the main window.
pub fn exits_on_destroy(label: &String) -> (r: bool)
    ensures
        r == (label@ == main_label()),
{
    let main = String::from_str("main");
    *label == main
}

/// Destroying an overlay window never terminates the process: no symbol's
/// canonical label is the main window's label.
pub proof fn lemma_overlay_destroy_never_exits(symbol: Seq<char>)
    ensures
        label_of(symbol) != main_label(),
{
    reveal_strlit("ticker_");
    reveal_strlit("main");
    assert(label_of(symbol).len() >= 7);
    assert(main_label().len() == 4);
}

} // verus!
