//! The window registry and the lock state controller.
//!
//! The registry owns the only mapping from labels to live overlay windows,
//! together with the process-wide "locked" flag.  Every entry point that
//! touches either — UI commands and the global-hotkey callback alike — is
//! serialized through one `&mut Registry`, so the get-or-create and
//! read-modify-write steps below are single logical transactions.

use vstd::prelude::*;
use crate::label::{label_of, window_label};
use crate::window::{
    fresh_window, reset_geometry, OverlayWindow, Position, WindowModel, DEFAULT_HEIGHT,
    DEFAULT_WIDTH, RESET_X, RESET_Y,
};

verus! {

/// What a spawn request resolved to.
#[derive(Clone, Copy, PartialEq, Eq, Structural, Debug)]
pub enum SpawnOutcome {
    /// No window was registered under the label; a new one was created.
    Created,
    /// A window was already registered; it is focused, not recreated.
    Focused,
}

/// The registry of live overlay windows plus the process-wide lock flag.
pub struct Registry {
    /// The process-wide click-through mode; overlays start locked.
    pub locked: bool,
    /// The live overlay windows, one per label.
    pub windows: Vec<OverlayWindow>,
}

/// The mathematical view of the registry.
#[verifier::ext_equal]
pub struct RegistryModel {
    pub locked: bool,
    pub windows: Seq<WindowModel>,
}

impl View for Registry {
    type V = RegistryModel;

    open spec fn view(&self) -> RegistryModel {
        RegistryModel {
            locked: self.locked,
            windows: self.windows@.map_values(|w: OverlayWindow| w@),
        }
    }
}

/// Whether some window in `ws` is registered under `label`.
pub open spec fn contains_label(ws: Seq<WindowModel>, label: Seq<char>) -> bool {
    exists|i: int| 0 <= i < ws.len() && ws[i].label == label
}

/// No two windows share a label.
pub open spec fn labels_unique(ws: Seq<WindowModel>) -> bool {
    forall|i: int, j: int| #![trigger ws[i], ws[j]]
        0 <= i < ws.len() && 0 <= j < ws.len() && i != j ==> ws[i].label != ws[j].label
}

/// Every window carries the label derived from its symbol and the fixed
/// overlay visual flags.
pub open spec fn windows_wf(ws: Seq<WindowModel>) -> bool {
    forall|i: int| #![trigger ws[i]]
        0 <= i < ws.len() ==> ws[i].label == label_of(ws[i].symbol) && ws[i].overlay_flags()
}

/// The registry after a spawn request: unchanged when the label is already
/// registered, otherwise extended with a fresh window whose click-through
/// flag is the lock state OR the per-spawn override.
pub open spec fn spawn_transition(
    m: RegistryModel,
    symbol: Seq<char>,
    ignore_mouse: bool,
    position: Option<Position>,
) -> RegistryModel {
    if contains_label(m.windows, label_of(symbol)) {
        m
    } else {
        RegistryModel {
            locked: m.locked,
            windows: m.windows.push(fresh_window(symbol, m.locked || ignore_mouse, position)),
        }
    }
}

/// Every window with its click-through flag set to `value`.
pub open spec fn apply_lock(ws: Seq<WindowModel>, value: bool) -> Seq<WindowModel> {
    ws.map_values(|w: WindowModel| WindowModel { click_through: value, ..w })
}

impl Registry {
    /// The registry invariant: labels are unique and derived from the
    /// symbols, and every window keeps the fixed overlay flags.
    pub open spec fn wf(self) -> bool {
        labels_unique(self@.windows) && windows_wf(self@.windows)
    }

    /// A fresh registry: no windows, overlays locked (click-through) from
    /// process start.
    pub fn new() -> (r: Registry)
        ensures
            r.wf(),
            r@.locked == true,
            r@.windows == Seq::<WindowModel>::empty(),
    {
        let r = Registry { locked: true, windows: Vec::new() };
        proof {
            assert(r@.windows =~= Seq::<WindowModel>::empty());
        }
        r
    }

    /// The current lock value, a plain read.
    pub fn is_locked(&self) -> (r: bool)
        ensures
            r == self@.locked,
    {
        self.locked
    }

    /// How many overlay windows are live.
    pub fn window_count(&self) -> (r: usize)
        ensures
            r == self@.windows.len(),
    {
        self.windows.len()
    }

    /// The index of the window registered under `label`, if any.
    fn find_index(&self, label: &String) -> (r: Option<usize>)
        ensures
            match r {
                Some(i) => i < self@.windows.len() && self@.windows[i as int].label == label@,
                None => !contains_label(self@.windows, label@),
            },
    {
        let mut i: usize = 0;
        while i < self.windows.len()
            invariant
                i <= self.windows@.len(),
                forall|j: int| 0 <= j < i ==> self@.windows[j].label != label@,
            decreases self.windows@.len() - i,
        {
            if self.windows[i].label == *label {
                return Some(i);
            }
            i += 1;
        }
        None
    }

    /// The window registered under `label`, if any.
    pub fn get_window(&self, label: &String) -> (r: Option<&OverlayWindow>)
        ensures
            match r {
                Some(w) => contains_label(self@.windows, label@) && w@.label == label@
                    && exists|i: int| 0 <= i < self@.windows.len() && self@.windows[i] == w@,
                None => !contains_label(self@.windows, label@),
            },
    {
        match self.find_index(label) {
            Some(i) => Some(&self.windows[i]),
            None => None,
        }
    }

    /// Get-or-create for one symbol, as a single transaction: when a window
    /// with the canonical label is live it is focused and nothing else
    /// changes; otherwise exactly one new overlay is created, click-through
    /// when the lock state or the per-spawn override says so.
    pub fn spawn_or_focus(
        &mut self,
        symbol: &String,
        ignore_mouse: bool,
        position: Option<Position>,
    ) -> (r: SpawnOutcome)
        requires
            old(self).wf(),
        ensures
            final(self).wf(),
            final(self)@ == spawn_transition(old(self)@, symbol@, ignore_mouse, position),
            r == SpawnOutcome::Focused <==> contains_label(
                old(self)@.windows,
                label_of(symbol@),
            ),
    {
        let label = window_label(symbol);
        match self.find_index(&label) {
            Some(_) => SpawnOutcome::Focused,
            None => {
                let click_through = self.locked || ignore_mouse;
                let w = OverlayWindow {
                    symbol: symbol.clone(),
                    label: label,
                    click_through: click_through,
                    visible: true,
                    width: DEFAULT_WIDTH,
                    height: DEFAULT_HEIGHT,
                    position: position,
                    transparent: true,
                    decorations: false,
                    always_on_top: true,
                    skip_taskbar: true,
                    resizable: true,
                };
                proof {
                    assert(w@ =~= fresh_window(symbol@, old(self)@.locked || ignore_mouse, position));
                }
                self.windows.push(w);
                proof {
                    assert(self@.windows =~= old(self)@.windows.push(
                        fresh_window(symbol@, old(self)@.locked || ignore_mouse, position),
                    ));
                    assert(self@ =~= spawn_transition(old(self)@, symbol@, ignore_mouse, position));
                }
                SpawnOutcome::Created
            },
        }
    }

    /// Close the window registered under `label`; absent labels are a no-op.
    pub fn close(&mut self, label: &String) -> (closed: bool)
        requires
            old(self).wf(),
        ensures
            final(self).wf(),
            closed == contains_label(old(self)@.windows, label@),
            final(self)@.locked == old(self)@.locked,
            !closed ==> final(self)@ == old(self)@,
            closed ==> exists|i: int|
                0 <= i < old(self)@.windows.len() && old(self)@.windows[i].label == label@
                    && final(self)@.windows == old(self)@.windows.remove(i),
    {
        match self.find_index(label) {
            Some(i) => {
                let ghost pre = self@.windows;
                self.windows.remove(i);
                proof {
                    assert(self@.windows =~= pre.remove(i as int));
                }
                true
            },
            None => false,
        }
    }

    /// Force the window registered under `label` back to the default
    /// geometry; absent labels are a no-op.
    pub fn reset(&mut self, label: &String) -> (found: bool)
        requires
            old(self).wf(),
        ensures
            final(self).wf(),
            found == contains_label(old(self)@.windows, label@),
            final(self)@.locked == old(self)@.locked,
            !found ==> final(self)@ == old(self)@,
            found ==> final(self)@.windows.len() == old(self)@.windows.len()
                && forall|i: int|
                    0 <= i < old(self)@.windows.len() ==> final(self)@.windows[i] == (
                    if old(self)@.windows[i].label == label@ {
                        reset_geometry(old(self)@.windows[i])
                    } else {
                        old(self)@.windows[i]
                    }),
    {
        match self.find_index(label) {
            Some(i) => {
                let ghost pre = self@.windows;
                let w = self.windows.remove(i);
                let w2 = OverlayWindow {
                    width: DEFAULT_WIDTH,
                    height: DEFAULT_HEIGHT,
                    position: Some(Position { x: RESET_X, y: RESET_Y }),
                    ..w
                };
                self.windows.insert(i, w2);
                proof {
                    assert(self@.windows =~= pre.update(i as int, reset_geometry(pre[i as int])));
                }
                true
            },
            None => false,
        }
    }

    /// Store the new lock value, then apply it as the click-through flag of
    /// every registered overlay window.  The shell emits the lock-toggled
    /// event after this returns, so the event follows the state change.
    pub fn set_lock(&mut self, value: bool)
        requires
            old(self).wf(),
        ensures
            final(self).wf(),
            final(self)@.locked == value,
            final(self)@.windows == apply_lock(old(self)@.windows, value),
            forall|i: int|
                0 <= i < final(self)@.windows.len()
                    ==> final(self)@.windows[i].click_through == value,
    {
        self.locked = value;
        let ghost pre = self@.windows;
        let mut i: usize = 0;
        while i < self.windows.len()
            invariant
                i <= self.windows@.len(),
                self.locked == value,
                self@.windows.len() == pre.len(),
                forall|j: int|
                    0 <= j < i ==> self@.windows[j] == (WindowModel {
                        click_through: value,
                        ..pre[j]
                    }),
                forall|j: int| i <= j < pre.len() ==> self@.windows[j] == pre[j],
            decreases self.windows@.len() - i,
        {
            let ghost loop_pre = self@.windows;
            let w = self.windows.remove(i);
            let w2 = OverlayWindow { click_through: value, ..w };
            self.windows.insert(i, w2);
            proof {
                assert(self@.windows =~= loop_pre.update(
                    i as int,
                    WindowModel { click_through: value, ..loop_pre[i as int] },
                ));
            }
            i += 1;
        }
        proof {
            assert(self@.windows =~= apply_lock(pre, value));
        }
    }

    /// Read-modify-write toggle of the lock value, serialized with every
    /// other mutation through `&mut self`; returns the new value after
    /// applying it to every overlay window.
    pub fn toggle_lock(&mut self) -> (r: bool)
        requires
            old(self).wf(),
        ensures
            final(self).wf(),
            r == !old(self)@.locked,
            final(self)@.locked == r,
            final(self)@.windows == apply_lock(old(self)@.windows, r),
            forall|i: int|
                0 <= i < final(self)@.windows.len()
                    ==> final(self)@.windows[i].click_through == r,
    {
        let value = !self.locked;
        self.set_lock(value);
        value
    }
}

/// The lock value after `n` toggles from `l`.
pub open spec fn toggled(l: bool, n: nat) -> bool
    decreases n,
{
    if n == 0 {
        l
    } else {
        !toggled(l, (n - 1) as nat)
    }
}

/// No toggle is lost: `n` toggles from `l`, however the requests were
/// serialized, land on `l XOR (n mod 2)`.  Each `toggle_lock` call flips
/// `locked` exactly once, so a run of `n` calls realizes `toggled(l, n)`.
pub proof fn lemma_toggle_parity(l: bool, n: nat)
    ensures
        toggled(l, n) == (l ^ (n % 2 == 1)),
    decreases n,
{
    if n > 0 {
        lemma_toggle_parity(l, (n - 1) as nat);
    }
}

/// Applying a lock value touches nothing but the click-through flag: every
/// window keeps its symbol, label, geometry and visual state, and ends up
/// with exactly the new value.
pub proof fn lemma_apply_lock_pointwise(ws: Seq<WindowModel>, value: bool, i: int)
    requires
        0 <= i < ws.len(),
    ensures
        apply_lock(ws, value).len() == ws.len(),
        apply_lock(ws, value)[i] == (WindowModel { click_through: value, ..ws[i] }),
{
}

/// Spawning two symbols whose canonical labels differ yields two distinct,
/// independently addressable windows: both labels are registered afterwards
/// and the registry grew by exactly two.
pub proof fn lemma_spawn_distinct(
    m: RegistryModel,
    s1: Seq<char>,
    s2: Seq<char>,
    im1: bool,
    im2: bool,
    p1: Option<Position>,
    p2: Option<Position>,
)
    requires
        label_of(s1) != label_of(s2),
        !contains_label(m.windows, label_of(s1)),
        !contains_label(m.windows, label_of(s2)),
    ensures
        ({
            let m1 = spawn_transition(m, s1, im1, p1);
            let m2 = spawn_transition(m1, s2, im2, p2);
            &&& m2.windows.len() == m.windows.len() + 2
            &&& contains_label(m2.windows, label_of(s1))
            &&& contains_label(m2.windows, label_of(s2))
            &&& forall|i: int| 0 <= i < m.windows.len() ==> m2.windows[i] == m.windows[i]
        }),
{
    let m1 = spawn_transition(m, s1, im1, p1);
    assert(m1.windows[m.windows.len() as int].label == label_of(s1));
    assert(!contains_label(m1.windows, label_of(s2)));
    let m2 = spawn_transition(m1, s2, im2, p2);
    assert(m2.windows[m.windows.len() as int].label == label_of(s1));
    assert(m2.windows[m1.windows.len() as int].label == label_of(s2));
}

/// Get-or-create is idempotent per symbol: once a spawn for `s` has
/// resolved, every further spawn for `s` focuses the existing window and
/// changes nothing, so at most one window is ever created per label.
pub proof fn lemma_spawn_once(
    m: RegistryModel,
    s: Seq<char>,
    im1: bool,
    im2: bool,
    p1: Option<Position>,
    p2: Option<Position>,
)
    ensures
        ({
            let m1 = spawn_transition(m, s, im1, p1);
            &&& contains_label(m1.windows, label_of(s))
            &&& spawn_transition(m1, s, im2, p2) == m1
        }),
{
    let m1 = spawn_transition(m, s, im1, p1);
    if !contains_label(m.windows, label_of(s)) {
        assert(m1.windows[m.windows.len() as int].label == label_of(s));
    }
}

} // verus!
