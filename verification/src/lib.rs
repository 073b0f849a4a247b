//! Backend-agnostic windowing types for a rendering library.
//!
//! Opening a window and an accompanying graphics context is tightly bound to
//! the kind of application being built: a desktop program might lean on a
//! windowing toolkit while another binds directly to the platform's window
//! system. This crate holds the small pieces every such backend shares:
//!
//! - [`WindowDim`]: the dimension of a window together with its mode
//!   (windowed, fullscreen, fullscreen restricted).
//! - [`WindowOpt`]: hints used to customize the window integration, such as
//!   whether the cursor should be hidden.
//! - [`Surface`]: the capability a concrete backend implements so that
//!   rendering code can stay agnostic of the platform: querying the
//!   framebuffer size, gathering system events and presenting frames.
//!
//! The [`mock`] module offers a small headless backend that satisfies the
//! [`Surface`] contract without talking to any display, useful for exercising
//! code written against the capability.

use vstd::prelude::*;

pub mod mock;

verus! {

/// Dimension metrics of a window.
///
/// - `Windowed(width, height)` opens in windowed mode with the wished
///   resolution.
/// - `Fullscreen` opens in fullscreen mode, adapting to the primary monitor's
///   resolution at creation time.
/// - `FullscreenRestricted(width, height)` opens in fullscreen mode but
///   restricts the viewport to the wished resolution.
///
/// The width and height carried by a variant are caller-supplied and are not
/// validated by this layer; validation, if any, belongs to the backend.
#[derive(Clone, Copy, Debug, PartialEq, Eq, Structural)]
pub enum WindowDim {
    /// Windowed mode.
    Windowed(u32, u32),
    /// Fullscreen mode (adapt to your screen).
    Fullscreen,
    /// Fullscreen mode with restricted viewport dimension.
    FullscreenRestricted(u32, u32),
}

/// Exactly one variant of a [`WindowDim`] is active at a time.
pub proof fn lemma_window_dim_exclusive(dim: WindowDim)
    ensures
        dim is Windowed || dim is Fullscreen || dim is FullscreenRestricted,
        dim is Windowed ==> dim !is Fullscreen && dim !is FullscreenRestricted,
        dim is Fullscreen ==> dim !is FullscreenRestricted,
{
}

/// The dimensions carried by a [`WindowDim`] are preserved unchanged from
/// construction to inspection.
pub proof fn lemma_window_dim_payload_preserved(width: u32, height: u32)
    ensures
        WindowDim::Windowed(width, height)->Windowed_0 == width,
        WindowDim::Windowed(width, height)->Windowed_1 == height,
        WindowDim::FullscreenRestricted(width, height)->FullscreenRestricted_0 == width,
        WindowDim::FullscreenRestricted(width, height)->FullscreenRestricted_1 == height,
{
}

/// Window options.
///
/// The recognized options are hints a backend is expected to honour when it
/// creates the window. Values are built starting from `default()` and refined
/// with the fluent methods.
#[derive(Clone, Copy, Debug, PartialEq, Eq, Structural)]
pub struct WindowOpt {
    hide_cursor: bool,
}

impl WindowOpt {
    /// Whether these options ask for a hidden cursor, as contracts see it.
    pub closed spec fn cursor_hidden(self) -> bool {
        self.hide_cursor
    }

    /// The options value with the cursor hint set to `hide`, as contracts see
    /// it.
    pub closed spec fn spec_hide_cursor(self, hide: bool) -> WindowOpt {
        WindowOpt { hide_cursor: hide }
    }

    /// Hide or unhide the cursor. Defaults to `false`.
    #[inline]
    pub fn hide_cursor(self, hide: bool) -> (r: Self)
        ensures
            r == self.spec_hide_cursor(hide),
            r.cursor_hidden() == hide,
    {
        WindowOpt { hide_cursor: hide, ..self }
    }

    /// Whether the cursor was asked to be hidden.
    #[inline]
    pub fn is_cursor_hidden(&self) -> (r: bool)
        ensures
            r == self.cursor_hidden(),
    {
        self.hide_cursor
    }
}

impl Default for WindowOpt {
    /// Defaults:
    ///
    /// - `hide_cursor(false)`
    fn default() -> (r: Self)
        ensures
            !r.cursor_hidden(),
    {
        WindowOpt { hide_cursor: false }
    }
}

/// Setter/getter round trip: after asking for the cursor hint `hide`, reading
/// the hint back yields `hide`, whatever the options held before.
pub proof fn lemma_hide_cursor_round_trip(opt: WindowOpt, hide: bool)
    ensures
        opt.spec_hide_cursor(hide).cursor_hidden() == hide,
{
}

/// Setting the cursor hint twice to the same value yields a value identical
/// to setting it once.
pub proof fn lemma_hide_cursor_idempotent(opt: WindowOpt, hide: bool)
    ensures
        opt.spec_hide_cursor(hide).spec_hide_cursor(hide) == opt.spec_hide_cursor(hide),
{
}

/// Rendering surface.
///
/// A backend implements this capability so that an application stays
/// completely agnostic of the platform underneath. The methods let rendering
/// code retrieve the dimension of the framebuffer and gather the system
/// events captured by the application.
///
/// Two spec members model an implementor for the contracts: `size_spec`, the
/// live framebuffer size, and `pending_events`, the events the backend has
/// queued, oldest first. Event retrieval drains that queue and hands the
/// events out in the order the backend received them.
pub trait Surface: Sized {
    /// Type of events.
    type Event;

    /// Type of surface errors.
    type Error;

    /// The framebuffer's current size, `(width, height)`, as contracts see
    /// it.
    spec fn size_spec(&self) -> (u32, u32);

    /// The events queued and not yet handed out, oldest first, as contracts
    /// see them.
    spec fn pending_events(&self) -> Seq<Self::Event>;

    /// Create a surface from a dimension, a title and window options.
    ///
    /// This is the single entry point of a backend; it fails with a
    /// backend-defined error when the platform cannot satisfy the request.
    fn new(dim: WindowDim, title: &str, win_opt: WindowOpt) -> (r: Result<Self, Self::Error>);

    /// Size of the surface's framebuffer, `(width, height)`.
    ///
    /// This is the live size, which can diverge from the originally requested
    /// dimension, e.g. under fullscreen or an OS-driven resize.
    fn size(&self) -> (r: (u32, u32))
        ensures
            r == self.size_spec(),
    ;

    /// Width of the surface's framebuffer.
    ///
    /// # Defaults
    ///
    /// Defaults to `.size().0`; an override must return the same value.
    fn width(&self) -> (r: u32)
        ensures
            r == self.size_spec().0,
    {
        self.size().0
    }

    /// Height of the surface's framebuffer.
    ///
    /// # Defaults
    ///
    /// Defaults to `.size().1`; an override must return the same value.
    fn height(&self) -> (r: u32)
        ensures
            r == self.size_spec().1,
    {
        self.size().1
    }

    /// Get the queued events, blocking until at least one event is there.
    ///
    /// The events already queued come out first, in the order the backend
    /// received them; events the platform delivers while the call blocks may
    /// follow them. The queue is left empty. A backend whose platform can
    /// deliver no further event returns what is queued instead of blocking.
    fn wait_events(&mut self) -> (r: Vec<Self::Event>)
        ensures
            old(self).pending_events().is_prefix_of(r@),
            final(self).pending_events().len() == 0,
    ;

    /// Get the queued events without blocking; the result is empty if no
    /// event is there.
    ///
    /// The events come out in the order the backend received them, and the
    /// queue is left empty.
    fn poll_events(&mut self) -> (r: Vec<Self::Event>)
        ensures
            r@ == old(self).pending_events(),
            final(self).pending_events().len() == 0,
    ;

    /// Execute `action` to render one frame, then present the frame to the
    /// display (swap the buffer chain).
    ///
    /// The callback is expected to only issue rendering commands; the
    /// windowing state — the framebuffer size and the event queue — is left
    /// untouched. The contract promises that the callback was executed: its
    /// postcondition holds of the call.
    fn draw<F: FnOnce() -> ()>(&mut self, action: F)
        requires
            action.requires(()),
        ensures
            action.ensures((), ()),
            final(self).size_spec() == old(self).size_spec(),
            final(self).pending_events() == old(self).pending_events(),
    ;
}

} // verus!
