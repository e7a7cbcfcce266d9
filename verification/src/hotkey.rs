//! The global-shortcut entry point.
//!
//! One system-wide key combination toggles the lock state.  The shell
//! registers the binding and delivers each callback here; only the
//! key-press transition acts, and it drives the very same lock mutation
//! path as the explicit command.

use vstd::prelude::*;
use crate::registry::{apply_lock, Registry};

verus! {

/// The transition a delivered shortcut callback reports.
#[derive(Clone, Copy, PartialEq, Eq, Structural, Debug)]
pub enum ShortcutState {
    Pressed,
    Released,
}

/// A system-wide key combination: modifier flags plus a key.  The binding
/// stays re-bindable even though the application registers one fixed combination.
#[derive(Clone, Copy, PartialEq, Eq, Structural, Debug)]
pub struct Hotkey {
    pub control: bool,
    pub shift: bool,
    pub alt: bool,
    pub key: char,
}

/// The one binding the application registers: Control+Shift+L.
pub fn lock_toggle_hotkey() -> (h: Hotkey)
    ensures
        h == (Hotkey { control: true, shift: true, alt: false, key: 'L' }),
{
    Hotkey { control: true, shift: true, alt: false, key: 'L' }
}

/// The decision for one delivered shortcut event: the key-press transition
/// toggles the lock and propagates it to every overlay window; a release
/// changes nothing.  Returns the new lock value when a toggle happened, so
/// the shell can announce it on the lock channel afterwards.
pub fn on_shortcut(registry: &mut Registry, state: ShortcutState) -> (r: Option<bool>)
    requires
        old(registry).wf(),
    ensures
        final(registry).wf(),
        state == ShortcutState::Pressed ==> {
            &&& final(registry)@.locked == !old(registry)@.locked
            &&& final(registry)@.windows == apply_lock(
                old(registry)@.windows,
                !old(registry)@.locked,
            )
            &&& r == Some(!old(registry)@.locked)
        },
        state != ShortcutState::Pressed ==> *final(registry) == *old(registry) && r is None,
{
    match state {
        ShortcutState::Pressed => Some(registry.toggle_lock()),
        ShortcutState::Released => None,
    }
}

} // verus!
