use mandelbrot::edge::{EdgeTrigger, KeyState};
use mandelbrot::fullscreen::{FullscreenAction, FullscreenControl, Key};

#[test]
fn held_key_fires_once() {
    let mut t = EdgeTrigger::new();
    let held = vec![KeyState::Pressed; 7];
    assert_eq!(t.update_all(&held), 1);
    assert_eq!(t.previous, KeyState::Pressed);
    // Still held: no further firing.
    assert_eq!(t.update_all(&held), 0);
}

#[test]
fn release_then_press_fires_again() {
    let mut t = EdgeTrigger::new();
    let events = vec![
        KeyState::Pressed,
        KeyState::Pressed,
        KeyState::Released,
        KeyState::Released,
        KeyState::Pressed,
    ];
    assert_eq!(t.update_all(&events), 2);
    assert_eq!(t.update_all(&Vec::new()), 0);
    assert_eq!(t.previous, KeyState::Pressed);
}

#[test]
fn single_updates() {
    let mut t = EdgeTrigger::new();
    assert!(!t.update(KeyState::Released));
    assert!(t.update(KeyState::Pressed));
    assert!(!t.update(KeyState::Pressed));
    assert!(!t.update(KeyState::Released));
    assert_eq!(t.previous, KeyState::Released);
}

#[test]
fn f11_toggles_on_press_only() {
    let mut f = FullscreenControl::new();
    assert_eq!(f.on_key(Key::F11, KeyState::Pressed, false), FullscreenAction::Enter);
    assert_eq!(f.on_key(Key::F11, KeyState::Pressed, true), FullscreenAction::Keep);
    assert_eq!(f.on_key(Key::F11, KeyState::Released, true), FullscreenAction::Keep);
    assert_eq!(f.on_key(Key::F11, KeyState::Pressed, true), FullscreenAction::Leave);
    assert_eq!(f.toggle.previous, KeyState::Pressed);
    assert_eq!(f.exit.previous, KeyState::Released);
}

#[test]
fn escape_leaves_fullscreen_only() {
    let mut f = FullscreenControl::new();
    assert_eq!(f.on_key(Key::Escape, KeyState::Pressed, false), FullscreenAction::Keep);
    // The press was stored although nothing happened: holding it does nothing.
    assert_eq!(f.on_key(Key::Escape, KeyState::Pressed, true), FullscreenAction::Keep);
    assert_eq!(f.on_key(Key::Escape, KeyState::Released, true), FullscreenAction::Keep);
    assert_eq!(f.on_key(Key::Escape, KeyState::Pressed, true), FullscreenAction::Leave);
    assert_eq!(f.toggle.previous, KeyState::Released);
}

#[test]
fn other_keys_do_nothing() {
    let mut f = FullscreenControl::new();
    assert_eq!(f.on_key(Key::Other, KeyState::Pressed, true), FullscreenAction::Keep);
    assert_eq!(f, FullscreenControl::new());
}
