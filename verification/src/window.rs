//! The overlay window record and its mathematical model.
//!
//! An overlay window is tracked by the registry as a plain record: its
//! symbol, its canonical label, its geometry in logical units, its
//! click-through flag, and the fixed visual flags every overlay is created
//! with.  The platform shell mirrors this record onto a real window.

use vstd::prelude::*;
use crate::label::label_of;

verus! {

/// Width, in logical units, of a freshly created or reset overlay window.
pub const DEFAULT_WIDTH: u64 = 180;

/// Height, in logical units, of a freshly created or reset overlay window.
pub const DEFAULT_HEIGHT: u64 = 60;

/// X coordinate a reset window is moved to.
pub const RESET_X: i64 = 100;

/// Y coordinate a reset window is moved to.
pub const RESET_Y: i64 = 100;

/// A position in logical screen coordinates.
#[derive(Clone, Copy, PartialEq, Eq, Structural, Debug)]
pub struct Position {
    pub x: i64,
    pub y: i64,
}

/// A live overlay window as the registry tracks it.
pub struct OverlayWindow {
    /// The instrument symbol the window displays.
    pub symbol: String,
    /// The canonical label, always `label_of(symbol)`.
    pub label: String,
    /// Whether pointer input passes through the window.
    pub click_through: bool,
    /// Whether the window is shown; a spawned window ends up visible.
    pub visible: bool,
    /// Current width in logical units.
    pub width: u64,
    /// Current height in logical units.
    pub height: u64,
    /// Current position; `None` leaves placement to the platform.
    pub position: Option<Position>,
    /// Fixed visual flag: the window background is transparent.
    pub transparent: bool,
    /// Fixed visual flag: the window has a title bar and border.
    pub decorations: bool,
    /// Fixed visual flag: the window stays above ordinary windows.
    pub always_on_top: bool,
    /// Fixed visual flag: the window is kept out of the taskbar.
    pub skip_taskbar: bool,
    /// Fixed visual flag: the window may be resized.
    pub resizable: bool,
}

/// The mathematical view of an overlay window.
#[verifier::ext_equal]
pub struct WindowModel {
    pub symbol: Seq<char>,
    pub label: Seq<char>,
    pub click_through: bool,
    pub visible: bool,
    pub width: u64,
    pub height: u64,
    pub position: Option<Position>,
    pub transparent: bool,
    pub decorations: bool,
    pub always_on_top: bool,
    pub skip_taskbar: bool,
    pub resizable: bool,
}

impl View for OverlayWindow {
    type V = WindowModel;

    open spec fn view(&self) -> WindowModel {
        WindowModel {
            symbol: self.symbol@,
            label: self.label@,
            click_through: self.click_through,
            visible: self.visible,
            width: self.width,
            height: self.height,
            position: self.position,
            transparent: self.transparent,
            decorations: self.decorations,
            always_on_top: self.always_on_top,
            skip_taskbar: self.skip_taskbar,
            resizable: self.resizable,
        }
    }
}

impl WindowModel {
    /// The fixed visual state of every overlay: transparent, borderless,
    /// always on top, out of the taskbar, resizable.
    pub open spec fn overlay_flags(self) -> bool {
        self.transparent && !self.decorations && self.always_on_top && self.skip_taskbar
            && self.resizable
    }
}

/// The window a spawn request creates: default size, the requested position
/// if one was supplied, the fixed visual flags, visible, and the
/// click-through flag the lock state dictated at creation time.
pub open spec fn fresh_window(
    symbol: Seq<char>,
    click_through: bool,
    position: Option<Position>,
) -> WindowModel {
    WindowModel {
        symbol: symbol,
        label: label_of(symbol),
        click_through: click_through,
        visible: true,
        width: DEFAULT_WIDTH,
        height: DEFAULT_HEIGHT,
        position: position,
        transparent: true,
        decorations: false,
        always_on_top: true,
        skip_taskbar: true,
        resizable: true,
    }
}

/// A window after the reset operation: default size, the fixed reset
/// position, everything else untouched.
pub open spec fn reset_geometry(w: WindowModel) -> WindowModel {
    WindowModel {
        width: DEFAULT_WIDTH,
        height: DEFAULT_HEIGHT,
        position: Some(Position { x: RESET_X, y: RESET_Y }),
        ..w
    }
}

} // verus!
