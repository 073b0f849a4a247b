//! A headless backend satisfying the [`Surface`](crate::Surface) contract.
//!
//! [`MockSurface`] talks to no display: its framebuffer size is fixed at
//! 640 by 480, it only accepts windowed mode, and its events are plain
//! numbers fed in by hand through [`MockSurface::push_event`]. It is meant
//! for exercising code written against the capability without a window
//! system at hand.

use vstd::prelude::*;

use crate::Surface;
use crate::WindowDim;
use crate::WindowOpt;

verus! {

/// Errors of the headless backend.
#[derive(Clone, Copy, Debug, PartialEq, Eq, Structural)]
pub enum MockError {
    /// The requested dimension asks for a mode the backend cannot satisfy:
    /// with no display attached there is nothing to go fullscreen on.
    UnsupportedMode,
}

/// A surface with no display behind it.
///
/// Its framebuffer reports a fixed size of 640 by 480, and its event queue
/// holds whatever [`MockSurface::push_event`] put there, oldest first.
pub struct MockSurface {
    events: Vec<u32>,
}

impl MockSurface {
    /// Append an event at the back of the queue, as if the platform had just
    /// delivered it.
    pub fn push_event(&mut self, event: u32)
        ensures
            final(self).pending_events() == old(self).pending_events().push(event),
    {
        self.events.push(event);
    }
}

impl Surface for MockSurface {
    type Event = u32;

    type Error = MockError;

    open spec fn size_spec(&self) -> (u32, u32) {
        (640, 480)
    }

    closed spec fn pending_events(&self) -> Seq<u32> {
        self.events@
    }

    /// Succeeds exactly for windowed mode, with an empty event queue; both
    /// fullscreen modes are refused, the backend having no display.
    fn new(dim: WindowDim, _title: &str, _win_opt: WindowOpt) -> (r: Result<Self, MockError>)
        ensures
            r is Ok <==> dim is Windowed,
            r matches Ok(s) ==> s.pending_events().len() == 0,
            r matches Err(e) ==> e == MockError::UnsupportedMode,
    {
        match dim {
            WindowDim::Windowed(_, _) => Ok(MockSurface { events: Vec::new() }),
            WindowDim::Fullscreen => Err(MockError::UnsupportedMode),
            WindowDim::FullscreenRestricted(_, _) => Err(MockError::UnsupportedMode),
        }
    }

    fn size(&self) -> (r: (u32, u32)) {
        (640, 480)
    }

    /// With no display behind it the backend has no further event source, so
    /// waiting delivers exactly what is queued, without blocking.
    fn wait_events(&mut self) -> (r: Vec<u32>) {
        self.poll_events()
    }

    fn poll_events(&mut self) -> (r: Vec<u32>) {
        let mut drained: Vec<u32> = Vec::new();
        core::mem::swap(&mut drained, &mut self.events);
        drained
    }

    /// Runs the action; with no display there is no buffer chain to swap, so
    /// presenting the frame is a no-op.
    fn draw<F: FnOnce() -> ()>(&mut self, action: F) {
        action();
    }
}

} // verus!
