//! The decisions of the render loop, apart from the window, the GPU and the
//! settings panel that carry them out.
//!
//! The loop that owns those hands each event to a [`Controller`] and performs
//! the action that comes back: zoom or rotate the camera, configure the
//! surface anew, draw a frame, or exit.

use crate::error::{RenderError, RenderStateError, SurfaceErrorKind};
use crate::uniform::ScreenData;
use vstd::prelude::*;

verus! {

/// Where the render loop stands.
#[derive(Clone, Copy, Debug, PartialEq, Eq, Structural)]
pub enum Phase {
    /// No window and no GPU resources yet.
    Uninitialized,
    /// Drawing frames.
    Active,
    /// The surface went stale; it is configured anew before the next frame.
    Degraded,
    /// Closed, or failed beyond recovery. Nothing happens any more.
    Terminated,
}

/// A window event, reduced to what the decisions read.
#[derive(Clone, Copy, Debug, PartialEq, Eq, Structural)]
pub enum WindowInput {
    /// The primary pointer button went down.
    PrimaryPressed,
    /// The primary pointer button went up.
    PrimaryReleased,
    /// The pointer wheel or the trackpad scrolled.
    Scroll,
    /// The window has a new inner size, in pixels.
    Resized { width: u32, height: u32 },
    /// The window asks to be drawn.
    RedrawRequested,
    /// The user asked to close the window.
    CloseRequested,
    /// The exit key was pressed.
    ExitKeyPressed,
    /// Anything else: other buttons, key presses, focus, and so on.
    Other,
}

/// What the loop does about a window event.
#[derive(Clone, Copy, Debug, PartialEq, Eq, Structural)]
pub enum WindowAction {
    /// Nothing.
    Ignore,
    /// The loop is not set up yet: the event is dropped with a warning.
    NotReady,
    /// Ask the window for a redraw.
    Redraw,
    /// Zoom the camera by the scroll distance, upload it, and ask for a redraw.
    Zoom,
    /// Configure the surface with the new screen size, upload the screen
    /// record, and ask for a redraw.
    Reconfigure,
    /// Draw a frame.
    Render,
    /// Release the surface, then the window, and end the loop.
    Exit,
}

/// What the loop does about raw pointer motion.
#[derive(Clone, Copy, Debug, PartialEq, Eq, Structural)]
pub enum MotionAction {
    /// Nothing: the loop is not running.
    Ignore,
    /// Hand the motion to the settings panel only.
    Forward,
    /// Hand the motion to the settings panel, rotate the camera by it,
    /// upload the camera and ask for a redraw.
    ForwardAndRotate,
}

/// What the loop does after a frame.
#[derive(Clone, Copy, Debug, PartialEq, Eq, Structural)]
pub enum FrameAction {
    /// The frame was presented; the next one is already asked for.
    Continue,
    /// The frame was dropped because the surface went stale: configure it
    /// anew with the window's current size.
    Reconfigure,
    /// The frame was dropped for a passing reason: warn and go on.
    Skip,
    /// The failure is fatal: end the loop with it.
    Terminate,
}

/// Whether a failed frame can be recovered by configuring the surface anew.
pub open spec fn is_stale_surface(error: RenderError) -> bool {
    error == RenderError::Surface(SurfaceErrorKind::Lost) || error == RenderError::Surface(
        SurfaceErrorKind::Outdated,
    )
}

/// Whether a failed frame can simply be dropped.
pub open spec fn is_transient(error: RenderError) -> bool {
    error == RenderError::Surface(SurfaceErrorKind::Timeout) || error is SurfaceMissized
}

/// The action that the result of a frame calls for.
pub open spec fn frame_action_spec(result: Result<(), RenderError>) -> FrameAction {
    match result {
        Ok(()) => FrameAction::Continue,
        Err(e) => if is_stale_surface(e) {
            FrameAction::Reconfigure
        } else if is_transient(e) {
            FrameAction::Skip
        } else {
            FrameAction::Terminate
        },
    }
}

/// Sorts the result of a frame: a stale surface is configured anew, a
/// timeout or a size mismatch drops the frame, and anything else (no
/// memory, a driver failure, a panel drawn too early) is fatal.
pub fn classify_frame(result: &Result<(), RenderError>) -> (r: FrameAction)
    ensures
        r == frame_action_spec(*result),
{
    match result {
        Ok(()) => FrameAction::Continue,
        Err(RenderError::Surface(SurfaceErrorKind::Lost))
        | Err(RenderError::Surface(SurfaceErrorKind::Outdated)) => FrameAction::Reconfigure,
        Err(RenderError::Surface(SurfaceErrorKind::Timeout))
        | Err(RenderError::SurfaceMissized(_)) => FrameAction::Skip,
        Err(_) => FrameAction::Terminate,
    }
}

/// The state that the render loop's decisions read and change.
#[derive(Clone, Copy, Debug, PartialEq, Eq, Structural)]
pub struct Controller {
    pub phase: Phase,
    /// Whether pointer motion rotates the camera (the primary button is
    /// held down over the scene).
    pub rotation_enabled: bool,
    /// The current size of the drawing surface.
    pub screen: ScreenData,
    /// Why start-up failed, where it did.
    pub failure: Option<RenderStateError>,
}

impl Controller {
    /// Whether the loop is drawing frames, in the normal way or while it
    /// recovers a stale surface.
    pub open spec fn is_running(self) -> bool {
        self.phase == Phase::Active || self.phase == Phase::Degraded
    }

    /// A loop that has not opened its window yet.
    pub fn new() -> (r: Controller)
        ensures
            r.phase == Phase::Uninitialized,
            !r.rotation_enabled,
            r.screen == (ScreenData { width: 0, height: 0 }),
            r.failure.is_none(),
    {
        Controller {
            phase: Phase::Uninitialized,
            rotation_enabled: false,
            screen: ScreenData { width: 0, height: 0 },
            failure: None,
        }
    }

    /// Whether the window-open signal should set the loop up now: only the
    /// first time, and never after the loop has ended.
    pub fn should_initialize(&self) -> (r: bool)
        ensures
            r == (self.phase == Phase::Uninitialized),
    {
        self.phase == Phase::Uninitialized
    }

    /// Records how set-up went: on success the loop is active with the
    /// window's size and rotation off; a failure ends the loop.
    pub fn initialized(&mut self, outcome: Result<ScreenData, RenderStateError>)
        requires
            old(self).phase == Phase::Uninitialized,
        ensures
            outcome is Ok ==> *final(self) == (Controller {
                phase: Phase::Active,
                rotation_enabled: false,
                screen: outcome->Ok_0,
                failure: None,
            }),
            outcome is Err ==> final(self).phase == Phase::Terminated && final(self).failure
                == Some(outcome->Err_0) && final(self).screen == old(self).screen,
    {
        match outcome {
            Ok(screen) => {
                self.phase = Phase::Active;
                self.rotation_enabled = false;
                self.screen = screen;
                self.failure = None;
            },
            Err(error) => {
                self.phase = Phase::Terminated;
                self.failure = Some(error);
            },
        }
    }

    /// Takes a new surface size, unless a dimension is zero. Returns whether
    /// the surface must be configured anew; a stale surface counts as
    /// recovered once it is.
    pub fn resize(&mut self, width: u32, height: u32) -> (taken: bool)
        ensures
            taken == (width > 0 && height > 0),
            taken ==> final(self).screen == (ScreenData { width, height }),
            !taken ==> final(self).screen == old(self).screen,
            final(self).phase == (if taken && old(self).phase == Phase::Degraded {
                Phase::Active
            } else {
                old(self).phase
            }),
            final(self).rotation_enabled == old(self).rotation_enabled,
            final(self).failure == old(self).failure,
    {
        let taken = self.screen.resize(width, height);
        if taken && self.phase == Phase::Degraded {
            self.phase = Phase::Active;
        }
        taken
    }

    /// Decides about a window event. `panel_wants_pointer` and
    /// `panel_consumed` tell whether the settings panel wants pointer input
    /// and whether it used this event: pointer input that the panel takes
    /// never reaches the camera.
    pub fn window_event(
        &mut self,
        input: WindowInput,
        panel_wants_pointer: bool,
        panel_consumed: bool,
    ) -> (r: WindowAction)
        ensures
            !old(self).is_running() ==> *final(self) == *old(self),
            old(self).phase == Phase::Uninitialized ==> r == WindowAction::NotReady,
            old(self).phase == Phase::Terminated ==> r == WindowAction::Ignore,
            old(self).is_running() ==> r == window_action_spec(
                *old(self),
                input,
                panel_wants_pointer || panel_consumed,
            ),
            old(self).is_running() ==> *final(self) == window_state_spec(
                *old(self),
                input,
                panel_wants_pointer || panel_consumed,
            ),
    {
        if self.phase == Phase::Uninitialized {
            return WindowAction::NotReady;
        }
        if self.phase == Phase::Terminated {
            return WindowAction::Ignore;
        }
        let for_panel = panel_wants_pointer || panel_consumed;
        match input {
            WindowInput::CloseRequested | WindowInput::ExitKeyPressed => {
                self.phase = Phase::Terminated;
                self.rotation_enabled = false;
                WindowAction::Exit
            },
            WindowInput::Resized { width, height } => {
                if self.resize(width, height) {
                    WindowAction::Reconfigure
                } else if for_panel {
                    WindowAction::Redraw
                } else {
                    WindowAction::Ignore
                }
            },
            WindowInput::RedrawRequested => WindowAction::Render,
            _ => {
                if for_panel {
                    WindowAction::Redraw
                } else {
                    match input {
                        WindowInput::PrimaryPressed => {
                            self.rotation_enabled = true;
                            WindowAction::Ignore
                        },
                        WindowInput::PrimaryReleased => {
                            self.rotation_enabled = false;
                            WindowAction::Ignore
                        },
                        WindowInput::Scroll => WindowAction::Zoom,
                        _ => WindowAction::Ignore,
                    }
                }
            },
        }
    }

    /// Decides about raw pointer motion: the panel always sees it, and the
    /// camera turns only while rotation is on.
    pub fn pointer_motion(&self) -> (r: MotionAction)
        ensures
            !self.is_running() ==> r == MotionAction::Ignore,
            self.is_running() && self.rotation_enabled ==> r == MotionAction::ForwardAndRotate,
            self.is_running() && !self.rotation_enabled ==> r == MotionAction::Forward,
    {
        if self.phase != Phase::Active && self.phase != Phase::Degraded {
            MotionAction::Ignore
        } else if self.rotation_enabled {
            MotionAction::ForwardAndRotate
        } else {
            MotionAction::Forward
        }
    }

    /// Decides what follows a frame. A stale surface puts the loop in the
    /// degraded phase until the surface is configured anew; a fatal failure
    /// ends it.
    pub fn frame_finished(&mut self, result: &Result<(), RenderError>) -> (r: FrameAction)
        requires
            old(self).is_running(),
        ensures
            r == frame_action_spec(*result),
            final(self).phase == match r {
                FrameAction::Continue => Phase::Active,
                FrameAction::Reconfigure => Phase::Degraded,
                FrameAction::Skip => old(self).phase,
                FrameAction::Terminate => Phase::Terminated,
            },
            final(self).rotation_enabled == old(self).rotation_enabled,
            final(self).screen == old(self).screen,
            final(self).failure == old(self).failure,
    {
        let r = classify_frame(result);
        match r {
            FrameAction::Continue => self.phase = Phase::Active,
            FrameAction::Reconfigure => self.phase = Phase::Degraded,
            FrameAction::Skip => {},
            FrameAction::Terminate => self.phase = Phase::Terminated,
        }
        r
    }
}

/// The action for a window event while the loop runs; `for_panel` tells
/// whether the settings panel takes pointer input.
pub open spec fn window_action_spec(c: Controller, input: WindowInput, for_panel: bool) -> WindowAction {
    match input {
        WindowInput::CloseRequested | WindowInput::ExitKeyPressed => WindowAction::Exit,
        WindowInput::Resized { width, height } => if width > 0 && height > 0 {
            WindowAction::Reconfigure
        } else if for_panel {
            WindowAction::Redraw
        } else {
            WindowAction::Ignore
        },
        WindowInput::RedrawRequested => WindowAction::Render,
        _ => if for_panel {
            WindowAction::Redraw
        } else if input == WindowInput::Scroll {
            WindowAction::Zoom
        } else {
            WindowAction::Ignore
        },
    }
}

/// The state after a window event while the loop runs.
pub open spec fn window_state_spec(c: Controller, input: WindowInput, for_panel: bool) -> Controller {
    match input {
        WindowInput::CloseRequested | WindowInput::ExitKeyPressed => Controller {
            phase: Phase::Terminated,
            rotation_enabled: false,
            ..c
        },
        WindowInput::Resized { width, height } => if width > 0 && height > 0 {
            Controller {
                phase: Phase::Active,
                screen: ScreenData { width, height },
                ..c
            }
        } else {
            c
        },
        WindowInput::PrimaryPressed => if for_panel {
            c
        } else {
            Controller { rotation_enabled: true, ..c }
        },
        WindowInput::PrimaryReleased => if for_panel {
            c
        } else {
            Controller { rotation_enabled: false, ..c }
        },
        _ => c,
    }
}

/// The index of the first entry for which `preferred` holds, or `0` where
/// none does. Picks the surface format (the first sRGB one, else the first)
/// and the alpha mode (automatic where offered, else the first).
pub fn preferred_index(preferred: &Vec<bool>) -> (r: usize)
    requires
        preferred@.len() > 0,
    ensures
        r < preferred@.len(),
        preferred@[r as int] ==> forall|j: int| 0 <= j < r ==> !#[trigger] preferred@[j],
        !preferred@[r as int] ==> r == 0 && forall|j: int|
            0 <= j < preferred@.len() ==> !#[trigger] preferred@[j],
{
    let mut i: usize = 0;
    while i < preferred.len()
        invariant
            i <= preferred@.len(),
            forall|j: int| 0 <= j < i ==> !#[trigger] preferred@[j],
        decreases preferred@.len() - i,
    {
        if preferred[i] {
            return i;
        }
        i = i + 1;
    }
    0
}

} // verus!
