//! The decisions of the window's event loop: which events reconfigure the
//! presentation surface, which schedule or perform a redraw, and which end the
//! loop. The loop itself, and the window, GPU and UI work that each action
//! stands for, run outside this module.

use vstd::prelude::*;

verus! {

/// Width in pixels that the window asks for when it is created.
pub const INITIAL_WIDTH: u32 = 1920;

/// Height in pixels that the window asks for when it is created.
pub const INITIAL_HEIGHT: u32 = 1080;

/// An event that the application posts to its own event loop.
#[derive(Clone, Copy, Debug, PartialEq, Eq, Structural)]
pub enum Event {
    /// Another thread asks for the UI to be painted again.
    RequestRedraw,
}

/// An event as the loop sees it, reduced to what its decisions read.
#[derive(Clone, Copy, Debug, PartialEq, Eq, Structural)]
pub enum LoopEvent {
    /// The window system asks for the window to be redrawn.
    RedrawRequested,
    /// All pending input events of this iteration have been handled.
    MainEventsCleared,
    /// An event posted by the application.
    User(Event),
    /// The window's inner size changed to the given physical size.
    Resized { width: u32, height: u32 },
    /// The user asked to close the window.
    CloseRequested,
    /// Any other window event; it only feeds the UI's input.
    OtherWindowEvent,
    /// Any other event of the loop.
    Other,
}

/// What the loop does in answer to an event.
#[derive(Clone, Copy, Debug, PartialEq, Eq, Structural)]
pub enum Action {
    /// Nothing beyond handing the event to the UI.
    Nothing,
    /// Build the UI frame and draw it onto the surface.
    Render,
    /// Ask the window system for a redraw.
    RequestRedraw,
    /// Configure the surface again with the size the loop now holds.
    ReconfigureSurface,
    /// Leave the loop.
    Exit,
}

/// How the attempt to take the surface's next texture ended.
#[derive(Clone, Copy, Debug, PartialEq, Eq, Structural)]
pub enum AcquireOutcome {
    /// A texture to draw into was handed out.
    Acquired,
    /// The surface no longer matches the window (a minimised window).
    Outdated,
    /// Any other surface error.
    Failed,
}

/// What becomes of the frame after the surface texture was asked for.
#[derive(Clone, Copy, Debug, PartialEq, Eq, Structural)]
pub enum FrameDecision {
    /// Draw the frame and present it.
    Draw,
    /// Drop the frame without a word.
    SkipSilently,
    /// Drop the frame and report the error.
    SkipAndReport,
}

/// Physical size of the presentation surface, in pixels.
#[derive(Clone, Copy, Debug, PartialEq, Eq, Structural)]
pub struct SurfaceSize {
    pub width: u32,
    pub height: u32,
}

impl SurfaceSize {
    /// Neither side is zero.
    pub open spec fn is_drawable(self) -> bool {
        self.width > 0 && self.height > 0
    }
}

/// The action that answers `e`.
pub open spec fn action_for(e: LoopEvent) -> Action {
    match e {
        LoopEvent::RedrawRequested => Action::Render,
        LoopEvent::MainEventsCleared => Action::RequestRedraw,
        LoopEvent::User(Event::RequestRedraw) => Action::RequestRedraw,
        LoopEvent::Resized { width, height } => if width > 0 && height > 0 {
            Action::ReconfigureSurface
        } else {
            Action::Nothing
        },
        LoopEvent::CloseRequested => Action::Exit,
        LoopEvent::OtherWindowEvent => Action::Nothing,
        LoopEvent::Other => Action::Nothing,
    }
}

/// The surface size after `e`: a resize to a size with no zero side replaces
/// it (a zero side signals a minimised window), every other event keeps it.
pub open spec fn size_after(s: SurfaceSize, e: LoopEvent) -> SurfaceSize {
    match e {
        LoopEvent::Resized { width, height } => if width > 0 && height > 0 {
            SurfaceSize { width, height }
        } else {
            s
        },
        _ => s,
    }
}

/// The decision for an outcome of taking the surface texture.
pub open spec fn frame_decision_for(o: AcquireOutcome) -> FrameDecision {
    match o {
        AcquireOutcome::Acquired => FrameDecision::Draw,
        AcquireOutcome::Outdated => FrameDecision::SkipSilently,
        AcquireOutcome::Failed => FrameDecision::SkipAndReport,
    }
}

/// The state that the loop carries from one event to the next.
#[derive(Clone, Copy, Debug, PartialEq, Eq, Structural)]
pub struct LoopState {
    /// The size the surface is configured with.
    pub surface: SurfaceSize,
}

impl LoopState {
    /// The state at start, with the surface configured to the window's
    /// inner size.
    pub fn new(width: u32, height: u32) -> (r: LoopState)
        ensures
            r.surface == (SurfaceSize { width, height }),
    {
        LoopState { surface: SurfaceSize { width, height } }
    }

    /// Answers one event: updates the surface size and returns the action.
    pub fn step(&mut self, e: LoopEvent) -> (a: Action)
        ensures
            a == action_for(e),
            final(self).surface == size_after(old(self).surface, e),
            old(self).surface.is_drawable() ==> final(self).surface.is_drawable(),
    {
        match e {
            LoopEvent::RedrawRequested => Action::Render,
            LoopEvent::MainEventsCleared => Action::RequestRedraw,
            LoopEvent::User(Event::RequestRedraw) => Action::RequestRedraw,
            LoopEvent::Resized { width, height } => {
                if width > 0 && height > 0 {
                    self.surface = SurfaceSize { width, height };
                    Action::ReconfigureSurface
                } else {
                    Action::Nothing
                }
            },
            LoopEvent::CloseRequested => Action::Exit,
            LoopEvent::OtherWindowEvent => Action::Nothing,
            LoopEvent::Other => Action::Nothing,
        }
    }
}

/// Decides what becomes of a frame once the surface texture was asked for.
pub fn decide_frame(o: AcquireOutcome) -> (d: FrameDecision)
    ensures
        d == frame_decision_for(o),
{
    match o {
        AcquireOutcome::Acquired => FrameDecision::Draw,
        AcquireOutcome::Outdated => FrameDecision::SkipSilently,
        AcquireOutcome::Failed => FrameDecision::SkipAndReport,
    }
}

} // verus!
