use vstd::prelude::*;

use crate::edge::{is_rising, EdgeTrigger, KeyState};

verus! {

/// The keys the control core tells apart.
#[derive(Clone, Copy, Debug, PartialEq, Eq, Structural)]
pub enum Key {
    /// Toggles fullscreen.
    F11,
    /// Leaves fullscreen.
    Escape,
    Other,
}

/// What the window must do after a key event.
#[derive(Clone, Copy, Debug, PartialEq, Eq, Structural)]
pub enum FullscreenAction {
    Keep,
    /// Enter exclusive fullscreen in the monitor's largest video mode.
    Enter,
    /// Return to a window.
    Leave,
}

/// The action for `key` in `state`, given the previous states of the two
/// keys and whether the window is fullscreen now.
pub open spec fn fullscreen_action_of(
    toggle_previous: KeyState,
    exit_previous: KeyState,
    key: Key,
    state: KeyState,
    is_fullscreen: bool,
) -> FullscreenAction {
    match key {
        Key::F11 => if !is_rising(toggle_previous, state) {
            FullscreenAction::Keep
        } else if is_fullscreen {
            FullscreenAction::Leave
        } else {
            FullscreenAction::Enter
        },
        Key::Escape => if is_rising(exit_previous, state) && is_fullscreen {
            FullscreenAction::Leave
        } else {
            FullscreenAction::Keep
        },
        Key::Other => FullscreenAction::Keep,
    }
}

/// Two rising-edge detectors: F11 toggles fullscreen, Escape leaves it.
#[derive(Clone, Copy, Debug, PartialEq, Eq, Structural)]
pub struct FullscreenControl {
    pub toggle: EdgeTrigger,
    pub exit: EdgeTrigger,
}

impl FullscreenControl {
    /// Both keys count as released.
    pub fn new() -> (r: FullscreenControl)
        ensures
            r.toggle.previous == KeyState::Released,
            r.exit.previous == KeyState::Released,
    {
        FullscreenControl { toggle: EdgeTrigger::new(), exit: EdgeTrigger::new() }
    }

    /// Handles one key event. The key's detector stores `state` whether or
    /// not an action results; the other detector is left alone.
    pub fn on_key(&mut self, key: Key, state: KeyState, is_fullscreen: bool) -> (r:
        FullscreenAction)
        ensures
            r == fullscreen_action_of(
                old(self).toggle.previous,
                old(self).exit.previous,
                key,
                state,
                is_fullscreen,
            ),
            final(self).toggle.previous == (if key == Key::F11 {
                state
            } else {
                old(self).toggle.previous
            }),
            final(self).exit.previous == (if key == Key::Escape {
                state
            } else {
                old(self).exit.previous
            }),
    {
        match key {
            Key::F11 => {
                if !self.toggle.update(state) {
                    FullscreenAction::Keep
                } else if is_fullscreen {
                    FullscreenAction::Leave
                } else {
                    FullscreenAction::Enter
                }
            },
            Key::Escape => {
                let fired = self.exit.update(state);
                if fired && is_fullscreen {
                    FullscreenAction::Leave
                } else {
                    FullscreenAction::Keep
                }
            },
            Key::Other => FullscreenAction::Keep,
        }
    }
}

} // verus!
