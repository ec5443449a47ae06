use vstd::prelude::*;

use crate::edge::{EdgeTrigger, KeyState};
use crate::fullscreen::{fullscreen_action_of, FullscreenAction, FullscreenControl, Key};
use crate::precision::PrecisionMode;
use crate::timing::{FrameTiming, INITIAL_FRAME_MICROS};

verus! {

/// Vertices of the full-screen triangle pair; the vertex stage makes the
/// geometry, so no vertex buffer is bound.
pub const FULL_SCREEN_VERTICES: u32 = 6;

/// A window-system event, reduced to the plain values the core decides on.
#[derive(Clone, Copy, Debug, PartialEq, Eq, Structural)]
pub enum InputEvent {
    Resized { width: u32, height: u32 },
    /// The pointer moved; the new position stays with the camera.
    PointerMoved,
    /// A scroll; `is_zero` when its delta is zero.
    Scrolled { is_zero: bool },
    /// The primary mouse button went down or up.
    PrimaryButton(KeyState),
    KeyInput { key: Key, state: KeyState },
    CloseRequested,
    RedrawRequested,
    /// Any other window event.
    Other,
}

/// Work the caller performs, in the order given.
#[derive(Clone, Copy, Debug, PartialEq, Eq, Structural)]
pub enum Action {
    /// Reconfigure the presentation surface to this size.
    ReconfigureSurface { width: u32, height: u32 },
    /// Serialize the viewport in `mode`'s layout, with the aspect of this
    /// size, and write it to the parameter buffer.
    WriteParameters { mode: PrecisionMode, width: u32, height: u32 },
    RequestRedraw,
    /// Move the center against the pointer's pixel delta, at `scale` pixels
    /// per unit of zoom; then remember the new pointer position.
    Pan { scale: u32 },
    /// Remember the new pointer position.
    TrackPointer,
    /// Zoom by the scroll delta, keeping the point under the pointer fixed,
    /// in a viewport of this size.
    Zoom { width: u32, height: u32 },
    RefreshTitle,
    EnterFullscreen,
    LeaveFullscreen,
    /// Acquire the next presentable surface image.
    AcquireFrame,
    /// Record a pass that clears to black, binds the parameter buffer and
    /// draws this many generated vertices.
    DrawFullScreen { vertices: u32 },
    /// Store the time elapsed since the event arrived as the frame time.
    MeasureFrameTime,
    Submit,
    Present,
    /// Leave the event loop.
    Exit,
}

/// Pixels per unit of zoom: the shorter side of the viewport.
pub open spec fn pixel_scale(width: u32, height: u32) -> u32 {
    if width <= height {
        width
    } else {
        height
    }
}

/// The shorter side of a `width` by `height` viewport.
pub fn min_side(width: u32, height: u32) -> (r: u32)
    ensures
        r == pixel_scale(width, height),
{
    if width <= height {
        width
    } else {
        height
    }
}

/// The whole state of the control loop, owned by the event loop and handed
/// by exclusive reference to each dispatch.
#[derive(Clone, Copy, Debug, PartialEq, Eq, Structural)]
pub struct Controller {
    /// Current drawable size in pixels.
    pub width: u32,
    pub height: u32,
    /// Fixed once the device is negotiated.
    pub precision: PrecisionMode,
    /// A pan drag is in progress.
    pub drag_active: bool,
    /// The parameter buffer no longer matches the viewport.
    pub dirty: bool,
    /// The loop has been asked to close.
    pub terminated: bool,
    pub keys: FullscreenControl,
    pub timing: FrameTiming,
}

/// Whether the input translator reports a viewport change for `ev`.
pub open spec fn input_changes(c: Controller, ev: InputEvent) -> bool {
    match ev {
        InputEvent::Resized { .. } => true,
        InputEvent::PointerMoved => c.drag_active,
        InputEvent::Scrolled { is_zero } => !is_zero,
        _ => false,
    }
}

/// The controller after the input translator has taken `ev`.
pub open spec fn after_input(c: Controller, ev: InputEvent) -> Controller {
    match ev {
        InputEvent::Resized { width, height } => Controller { width, height, ..c },
        InputEvent::PrimaryButton(s) => Controller { drag_active: s == KeyState::Pressed, ..c },
        _ => c,
    }
}

/// The camera work the input translator asks for on `ev`.
pub open spec fn camera_actions(c: Controller, ev: InputEvent) -> Seq<Action> {
    match ev {
        InputEvent::PointerMoved => if c.drag_active {
            seq![Action::Pan { scale: pixel_scale(c.width, c.height) }]
        } else {
            seq![Action::TrackPointer]
        },
        InputEvent::Scrolled { is_zero } => if is_zero {
            seq![]
        } else {
            seq![Action::Zoom { width: c.width, height: c.height }]
        },
        _ => seq![],
    }
}

/// The steps of one frame after the parameters are in the buffer.
pub open spec fn frame_actions() -> Seq<Action> {
    seq![
        Action::AcquireFrame,
        Action::DrawFullScreen { vertices: FULL_SCREEN_VERTICES },
        Action::MeasureFrameTime,
        Action::Submit,
        Action::Present,
    ]
}

/// Whether `ev` is one of the two fullscreen keys.
pub open spec fn is_fullscreen_key(ev: InputEvent) -> bool {
    ev matches InputEvent::KeyInput { key, .. } && key != Key::Other
}

/// The actions of one dispatch.
pub open spec fn step_actions(c: Controller, ev: InputEvent, is_fullscreen: bool) -> Seq<Action> {
    if c.terminated {
        seq![]
    } else {
        match ev {
            InputEvent::CloseRequested => seq![Action::Exit],
            InputEvent::Resized { width, height } => seq![
                Action::ReconfigureSurface { width, height },
                Action::WriteParameters { mode: c.precision, width, height },
                Action::RequestRedraw,
            ],
            InputEvent::RedrawRequested => (if c.dirty {
                seq![Action::WriteParameters { mode: c.precision, width: c.width, height: c.height }]
            } else {
                seq![]
            }) + frame_actions(),
            InputEvent::KeyInput { key, state } if key != Key::Other => match fullscreen_action_of(
                c.keys.toggle.previous,
                c.keys.exit.previous,
                key,
                state,
                is_fullscreen,
            ) {
                FullscreenAction::Keep => seq![],
                FullscreenAction::Enter => seq![Action::EnterFullscreen],
                FullscreenAction::Leave => seq![Action::LeaveFullscreen],
            },
            _ => camera_actions(c, ev) + seq![Action::RefreshTitle] + (if input_changes(c, ev) {
                seq![Action::RequestRedraw]
            } else {
                seq![]
            }),
        }
    }
}

/// The state after one dispatch.
pub open spec fn step_state(c: Controller, ev: InputEvent) -> Controller {
    if c.terminated {
        c
    } else {
        match ev {
            InputEvent::CloseRequested => Controller { terminated: true, ..c },
            InputEvent::Resized { width, height } => Controller {
                width,
                height,
                dirty: false,
                ..c
            },
            InputEvent::RedrawRequested => Controller { dirty: false, ..c },
            InputEvent::KeyInput { key, state } if key != Key::Other => Controller {
                keys: FullscreenControl {
                    toggle: if key == Key::F11 {
                        EdgeTrigger { previous: state }
                    } else {
                        c.keys.toggle
                    },
                    exit: if key == Key::Escape {
                        EdgeTrigger { previous: state }
                    } else {
                        c.keys.exit
                    },
                },
                ..c
            },
            _ => Controller { dirty: c.dirty || input_changes(c, ev), ..after_input(c, ev) },
        }
    }
}

/// After a resize to `width` by `height` the viewport has that size, the
/// parameter buffer is rewritten with it before the requested redraw, and
/// the next frame has nothing left to resynchronise.
pub proof fn lemma_resize_consistency(c: Controller, width: u32, height: u32, is_fullscreen: bool)
    requires
        !c.terminated,
    ensures
        ({
            let n = step_state(c, InputEvent::Resized { width, height });
            let a = step_actions(c, InputEvent::Resized { width, height }, is_fullscreen);
            let next_frame = step_actions(n, InputEvent::RedrawRequested, is_fullscreen);
            &&& n.width == width && n.height == height
            &&& exists|i: int, j: int|
                0 <= i < j < a.len() && a[i] == (Action::WriteParameters {
                    mode: c.precision,
                    width,
                    height,
                }) && a[j] == Action::RequestRedraw
            &&& forall|k: int| 0 <= k < next_frame.len() ==> !(next_frame[k] is WriteParameters)
        }),
{
    let n = step_state(c, InputEvent::Resized { width, height });
    let a = step_actions(c, InputEvent::Resized { width, height }, is_fullscreen);
    assert(a[1] == (Action::WriteParameters { mode: c.precision, width, height }));
    assert(a[2] == Action::RequestRedraw);
    assert(step_actions(n, InputEvent::RedrawRequested, is_fullscreen) =~= frame_actions());
}

/// Within a frame the parameter write, present exactly when the viewport
/// changed since the last one, is queued before the draw that reads it; the
/// draw is recorded before submission, and presenting ends the frame.
pub proof fn lemma_frame_order(c: Controller, is_fullscreen: bool)
    requires
        !c.terminated,
    ensures
        ({
            let a = step_actions(c, InputEvent::RedrawRequested, is_fullscreen);
            &&& (exists|i: int| 0 <= i < a.len() && a[i] is WriteParameters) == c.dirty
            &&& forall|i: int, j: int|
                #![trigger a[i], a[j]]
                0 <= i < a.len() && 0 <= j < a.len() && a[i] is WriteParameters
                    && a[j] is DrawFullScreen ==> i < j
            &&& forall|i: int, j: int|
                #![trigger a[i], a[j]]
                0 <= i < a.len() && 0 <= j < a.len() && a[i] is DrawFullScreen && a[j]
                    is Submit ==> i < j
            &&& a.len() > 0 && a.last() == Action::Present
        }),
{
    let a = step_actions(c, InputEvent::RedrawRequested, is_fullscreen);
    if c.dirty {
        assert(a[0] is WriteParameters);
        assert(forall|i: int| 1 <= i < a.len() ==> #[trigger] a[i] == frame_actions()[i - 1]);
    } else {
        assert(a =~= frame_actions());
    }
}

/// A close request ends the loop: it asks to exit, and afterwards no event
/// changes the state or yields any work, so no further frame is processed.
pub proof fn lemma_close_is_terminal(c: Controller, ev: InputEvent, is_fullscreen: bool)
    requires
        !c.terminated,
    ensures
        ({
            let n = step_state(c, InputEvent::CloseRequested);
            &&& step_actions(c, InputEvent::CloseRequested, is_fullscreen) == seq![Action::Exit]
            &&& step_state(n, ev) == n
            &&& step_actions(n, ev, is_fullscreen) == Seq::<Action>::empty()
        }),
{
}

impl Controller {
    /// A controller for a first drawable of `width` by `height` pixels, whose
    /// parameter buffer was filled at creation.
    pub fn new(width: u32, height: u32, precision: PrecisionMode) -> (r: Controller)
        ensures
            r.width == width,
            r.height == height,
            r.precision == precision,
            !r.drag_active,
            !r.dirty,
            !r.terminated,
            r.keys.toggle.previous == KeyState::Released,
            r.keys.exit.previous == KeyState::Released,
            r.timing.last_frame_micros == INITIAL_FRAME_MICROS,
    {
        Controller {
            width,
            height,
            precision,
            drag_active: false,
            dirty: false,
            terminated: false,
            keys: FullscreenControl::new(),
            timing: FrameTiming::new(),
        }
    }

    /// The input translator: takes a resize, pointer, scroll or button event
    /// into the viewport and gesture state, and reports whether the viewport
    /// changed. Other events change nothing.
    pub fn apply_input(&mut self, ev: InputEvent) -> (changed: bool)
        ensures
            changed == input_changes(*old(self), ev),
            *final(self) == after_input(*old(self), ev),
    {
        match ev {
            InputEvent::Resized { width, height } => {
                self.width = width;
                self.height = height;
                true
            },
            InputEvent::PointerMoved => self.drag_active,
            InputEvent::Scrolled { is_zero } => !is_zero,
            InputEvent::PrimaryButton(s) => {
                self.drag_active = s == KeyState::Pressed;
                false
            },
            _ => false,
        }
    }

    /// Handles one event: returns what the caller must do, in order, and
    /// moves to the next state. Nothing happens once the loop has closed.
    /// `is_fullscreen` tells whether the window is fullscreen now.
    pub fn on_event(&mut self, ev: InputEvent, is_fullscreen: bool) -> (r: Vec<Action>)
        ensures
            r@ == step_actions(*old(self), ev, is_fullscreen),
            *final(self) == step_state(*old(self), ev),
    {
        let mut out: Vec<Action> = Vec::new();
        if self.terminated {
            return out;
        }
        match ev {
            InputEvent::CloseRequested => {
                self.terminated = true;
                out.push(Action::Exit);
            },
            InputEvent::Resized { width, height } => {
                self.apply_input(ev);
                out.push(Action::ReconfigureSurface { width, height });
                out.push(Action::WriteParameters { mode: self.precision, width, height });
                out.push(Action::RequestRedraw);
                self.dirty = false;
            },
            InputEvent::RedrawRequested => {
                if self.dirty {
                    out.push(
                        Action::WriteParameters {
                            mode: self.precision,
                            width: self.width,
                            height: self.height,
                        },
                    );
                    self.dirty = false;
                }
                let ghost written = out@;
                out.push(Action::AcquireFrame);
                out.push(Action::DrawFullScreen { vertices: FULL_SCREEN_VERTICES });
                out.push(Action::MeasureFrameTime);
                out.push(Action::Submit);
                out.push(Action::Present);
                assert(out@ =~= written + frame_actions());
            },
            InputEvent::KeyInput { key, state } if key != Key::Other => {
                match self.keys.on_key(key, state, is_fullscreen) {
                    FullscreenAction::Keep => {},
                    FullscreenAction::Enter => out.push(Action::EnterFullscreen),
                    FullscreenAction::Leave => out.push(Action::LeaveFullscreen),
                }
                assert(out@ =~= step_actions(*old(self), ev, is_fullscreen));
            },
            _ => {
                match ev {
                    InputEvent::PointerMoved => if self.drag_active {
                        out.push(Action::Pan { scale: min_side(self.width, self.height) });
                    } else {
                        out.push(Action::TrackPointer);
                    },
                    InputEvent::Scrolled { is_zero } => if !is_zero {
                        out.push(Action::Zoom { width: self.width, height: self.height });
                    },
                    _ => {},
                }
                let ghost moved = out@;
                assert(moved =~= camera_actions(*old(self), ev));
                let changed = self.apply_input(ev);
                out.push(Action::RefreshTitle);
                if changed {
                    out.push(Action::RequestRedraw);
                    self.dirty = true;
                }
                assert(out@ =~= step_actions(*old(self), ev, is_fullscreen));
            },
        }
        out
    }

    /// Stores the measured duration of the frame just recorded.
    pub fn record_frame_time(&mut self, micros: u64)
        ensures
            *final(self) == (Controller { timing: FrameTiming { last_frame_micros: micros }, ..*old(self) }),
    {
        self.timing.record(micros);
    }
}

} // verus!
