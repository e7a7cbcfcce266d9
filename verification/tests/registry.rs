use ticker_overlay::hotkey::{on_shortcut, ShortcutState};
use ticker_overlay::registry::{Registry, SpawnOutcome};
use ticker_overlay::window::{OverlayWindow, Position};

fn window<'a>(reg: &'a Registry, label: &str) -> &'a OverlayWindow {
    reg.windows
        .iter()
        .find(|w| w.label == label)
        .expect("window not registered")
}

#[test]
fn new_registry_starts_locked() {
    let reg = Registry::new();
    assert!(reg.is_locked());
    assert_eq!(reg.window_count(), 0);
}

#[test]
fn spawn_two_symbols_two_windows() {
    let mut reg = Registry::new();
    assert_eq!(reg.spawn_or_focus(&"AAPL".to_string(), false, None), SpawnOutcome::Created);
    assert_eq!(reg.spawn_or_focus(&"MSFT".to_string(), false, None), SpawnOutcome::Created);
    assert_eq!(reg.window_count(), 2);
    let a = window(&reg, "ticker_AAPL");
    let m = window(&reg, "ticker_MSFT");
    assert_eq!(a.symbol, "AAPL");
    assert_eq!(m.symbol, "MSFT");
    assert_ne!(a.label, m.label);
}

#[test]
fn spawn_same_symbol_focuses() {
    let mut reg = Registry::new();
    assert_eq!(reg.spawn_or_focus(&"AAPL".to_string(), false, None), SpawnOutcome::Created);
    assert_eq!(
        reg.spawn_or_focus(&"AAPL".to_string(), true, Some(Position { x: 9, y: 9 })),
        SpawnOutcome::Focused
    );
    assert_eq!(reg.window_count(), 1);
    // The focused window was not recreated, resized or moved.
    let w = window(&reg, "ticker_AAPL");
    assert_eq!(w.position, None);
    assert!(w.click_through);
}

#[test]
fn spawn_while_locked_is_click_through() {
    let mut reg = Registry::new();
    assert!(reg.is_locked());
    reg.spawn_or_focus(&"AAPL".to_string(), false, Some(Position { x: 50, y: 50 }));
    let w = window(&reg, "ticker_AAPL");
    assert!(w.click_through);
    assert_eq!(w.position, Some(Position { x: 50, y: 50 }));
    assert!(w.visible);
    assert_eq!((w.width, w.height), (180, 60));
    assert!(w.transparent && !w.decorations && w.always_on_top && w.skip_taskbar && w.resizable);
}

#[test]
fn override_wins_when_unlocked() {
    let mut reg = Registry::new();
    reg.set_lock(false);
    reg.spawn_or_focus(&"AAPL".to_string(), true, None);
    assert!(window(&reg, "ticker_AAPL").click_through);
}

#[test]
fn unlocked_without_override_takes_input() {
    let mut reg = Registry::new();
    reg.set_lock(false);
    reg.spawn_or_focus(&"AAPL".to_string(), false, None);
    assert!(!window(&reg, "ticker_AAPL").click_through);
}

#[test]
fn set_lock_propagates_to_all_overlays() {
    let mut reg = Registry::new();
    reg.spawn_or_focus(&"AAPL".to_string(), false, None);
    reg.spawn_or_focus(&"MSFT".to_string(), true, None);
    reg.set_lock(false);
    assert!(!reg.is_locked());
    assert!(reg.windows.iter().all(|w| !w.click_through));
    reg.set_lock(true);
    assert!(reg.is_locked());
    assert!(reg.windows.iter().all(|w| w.click_through));
}

#[test]
fn toggle_flips_each_time() {
    let mut reg = Registry::new();
    let initial = reg.is_locked();
    let mut expected = initial;
    for _ in 0..5 {
        expected = !expected;
        assert_eq!(reg.toggle_lock(), expected);
        assert_eq!(reg.is_locked(), expected);
    }
    // Five toggles: the state ends opposite to where it started.
    assert_eq!(reg.is_locked(), !initial);
}

#[test]
fn toggle_propagates_to_all_overlays() {
    let mut reg = Registry::new();
    reg.spawn_or_focus(&"AAPL".to_string(), false, None);
    reg.spawn_or_focus(&"MSFT".to_string(), false, None);
    let value = reg.toggle_lock();
    assert!(reg.windows.iter().all(|w| w.click_through == value));
}

#[test]
fn reset_restores_default_geometry() {
    let mut reg = Registry::new();
    reg.spawn_or_focus(&"AAPL".to_string(), false, Some(Position { x: 300, y: 300 }));
    assert!(reg.reset(&"ticker_AAPL".to_string()));
    let w = window(&reg, "ticker_AAPL");
    assert_eq!((w.width, w.height), (180, 60));
    assert_eq!(w.position, Some(Position { x: 100, y: 100 }));
}

#[test]
fn reset_missing_label_is_noop() {
    let mut reg = Registry::new();
    reg.spawn_or_focus(&"AAPL".to_string(), false, None);
    assert!(!reg.reset(&"ticker_NOPE".to_string()));
    assert_eq!(reg.window_count(), 1);
    assert_eq!(window(&reg, "ticker_AAPL").position, None);
}

#[test]
fn close_removes_only_that_window() {
    let mut reg = Registry::new();
    reg.spawn_or_focus(&"AAPL".to_string(), false, None);
    reg.spawn_or_focus(&"MSFT".to_string(), false, None);
    assert!(reg.close(&"ticker_AAPL".to_string()));
    assert_eq!(reg.window_count(), 1);
    assert_eq!(window(&reg, "ticker_MSFT").symbol, "MSFT");
}

#[test]
fn close_missing_label_is_noop() {
    let mut reg = Registry::new();
    reg.spawn_or_focus(&"AAPL".to_string(), false, None);
    assert!(reg.close(&"ticker_AAPL".to_string()));
    assert!(!reg.close(&"ticker_AAPL".to_string()));
    assert_eq!(reg.window_count(), 0);
}

#[test]
fn spawn_after_close_recreates() {
    let mut reg = Registry::new();
    reg.spawn_or_focus(&"AAPL".to_string(), false, None);
    reg.close(&"ticker_AAPL".to_string());
    assert_eq!(reg.spawn_or_focus(&"AAPL".to_string(), false, None), SpawnOutcome::Created);
    assert_eq!(reg.window_count(), 1);
}

#[test]
fn get_window_finds_by_label() {
    let mut reg = Registry::new();
    reg.spawn_or_focus(&"AAPL".to_string(), false, None);
    let w = reg.get_window(&"ticker_AAPL".to_string()).expect("registered");
    assert_eq!(w.symbol, "AAPL");
    assert!(reg.get_window(&"ticker_MSFT".to_string()).is_none());
}

#[test]
fn shortcut_press_toggles_lock() {
    let mut reg = Registry::new();
    reg.spawn_or_focus(&"AAPL".to_string(), false, None);
    assert_eq!(on_shortcut(&mut reg, ShortcutState::Pressed), Some(false));
    assert!(!reg.is_locked());
    assert!(!window(&reg, "ticker_AAPL").click_through);
    assert_eq!(on_shortcut(&mut reg, ShortcutState::Pressed), Some(true));
    assert!(reg.is_locked());
}

#[test]
fn shortcut_release_is_ignored() {
    let mut reg = Registry::new();
    assert_eq!(on_shortcut(&mut reg, ShortcutState::Released), None);
    assert!(reg.is_locked());
}
