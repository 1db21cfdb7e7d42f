use vstd::prelude::*;

use crate::handler::Handler;
use crate::lifecycle::{answer, handed_over, next_state, Action, Lifecycle, Request};

verus! {

/// Provides some configuration options for the window.
pub struct Options<'a, H> {
    pub(crate) html: &'a str,
    pub(crate) width: usize,
    pub(crate) height: usize,
    pub(crate) fullscreen: bool,
    pub(crate) handler: H,
    pub(crate) minimum_size: Option<(usize, usize)>,
}

impl<'a, H> Options<'a, H> {
    /// The initially displayed HTML.
    pub closed spec fn html_view(&self) -> Seq<char> {
        self.html@
    }

    /// The preferred width.
    pub closed spec fn width_view(&self) -> usize {
        self.width
    }

    /// The preferred height.
    pub closed spec fn height_view(&self) -> usize {
        self.height
    }

    /// Whether the window starts in fullscreen mode.
    pub closed spec fn fullscreen_view(&self) -> bool {
        self.fullscreen
    }

    /// The event handler.
    pub closed spec fn handler_view(&self) -> H {
        self.handler
    }

    /// The preferred minimum size, if one was set.
    pub closed spec fn minimum_size_view(&self) -> Option<(usize, usize)> {
        self.minimum_size
    }

    /// The sensible defaults of `Options::new`.
    pub open spec fn is_default(&self) -> bool {
        &&& self.html_view().len() == 0
        &&& self.width_view() == 640
        &&& self.height_view() == 480
        &&& !self.fullscreen_view()
        &&& self.minimum_size_view() is None
    }
}

impl Options<'static, ()> {
    /// Creates a new configuration with sensible defaults.
    ///
    /// - The HTML is an empty string.
    /// - The initial window size is 640x480.
    /// - The minimum window size is the inital window size.
    /// - The window is not initially in fullscreen mode.
    pub fn new() -> (opts: Self)
        ensures
            opts.is_default(),
            opts.effective_minimum_size() == (640usize, 480usize),
    {
        let html = "";
        proof {
            reveal_strlit("");
        }
        Options { html, width: 640, height: 480, fullscreen: false, handler: (), minimum_size: None }
    }
}

impl<'a, H> Options<'a, H> {
    /// Sets the initially displayed HTML.
    pub fn html<'aa>(self, html: &'aa str) -> (opts: Options<'aa, H>)
        ensures
            opts.html_view() == html@,
            opts.width_view() == self.width_view(),
            opts.height_view() == self.height_view(),
            opts.fullscreen_view() == self.fullscreen_view(),
            opts.handler_view() == self.handler_view(),
            opts.minimum_size_view() == self.minimum_size_view(),
    {
        let Options { width, height, fullscreen, handler, minimum_size, .. } = self;
        Options { html, width, height, fullscreen, handler, minimum_size }
    }
}

impl<'a, H> Options<'a, H> {
    /// Sets the preferred size.
    pub fn size(self, width: usize, height: usize) -> (opts: Options<'a, H>)
        ensures
            opts.html_view() == self.html_view(),
            opts.width_view() == width,
            opts.height_view() == height,
            opts.fullscreen_view() == self.fullscreen_view(),
            opts.handler_view() == self.handler_view(),
            opts.minimum_size_view() == self.minimum_size_view(),
            self.minimum_size_view() is None ==> opts.effective_minimum_size() == (width, height),
    {
        let Options { html, fullscreen, handler, minimum_size, .. } = self;
        Options { html, width, height, fullscreen, handler, minimum_size }
    }

    /// Sets the preferred minimum size.
    pub fn minimum_size(self, width: usize, height: usize) -> (opts: Options<'a, H>)
        ensures
            opts.html_view() == self.html_view(),
            opts.width_view() == self.width_view(),
            opts.height_view() == self.height_view(),
            opts.fullscreen_view() == self.fullscreen_view(),
            opts.handler_view() == self.handler_view(),
            opts.minimum_size_view() == Some((width, height)),
            opts.effective_minimum_size() == (width, height),
    {
        let minimum_size = Some((width, height));
        let Options { html, width, height, fullscreen, handler, .. } = self;
        Options { html, width, height, fullscreen, handler, minimum_size }
    }

    /// Sets whether the window should initially be in fullscreen mode.
    pub fn fullscreen(self, fullscreen: bool) -> (opts: Options<'a, H>)
        ensures
            opts.html_view() == self.html_view(),
            opts.width_view() == self.width_view(),
            opts.height_view() == self.height_view(),
            opts.fullscreen_view() == fullscreen,
            opts.handler_view() == self.handler_view(),
            opts.minimum_size_view() == self.minimum_size_view(),
    {
        let Options { html, width, height, handler, minimum_size, .. } = self;
        Options { html, width, height, fullscreen, handler, minimum_size }
    }

    /// Sets the event handler.
    pub fn handler<HH>(self, handler: HH) -> (opts: Options<'a, HH>)
        ensures
            opts.html_view() == self.html_view(),
            opts.width_view() == self.width_view(),
            opts.height_view() == self.height_view(),
            opts.fullscreen_view() == self.fullscreen_view(),
            opts.handler_view() == handler,
            opts.minimum_size_view() == self.minimum_size_view(),
    {
        let Options { html, width, height, fullscreen, minimum_size, .. } = self;
        Options { html, width, height, fullscreen, handler, minimum_size }
    }

    /// The minimum size the window gets: the one that was set, or else the
    /// initial size.
    pub open spec fn effective_minimum_size(&self) -> (usize, usize) {
        match self.minimum_size_view() {
            Some(size) => size,
            None => (self.width_view(), self.height_view()),
        }
    }
}

/// What the platform layer opens the window with.
pub struct Launch<'a, H, T> {
    /// The initially displayed HTML.
    pub html: &'a str,
    /// The initial width.
    pub width: usize,
    /// The initial height.
    pub height: usize,
    /// Whether the window starts in fullscreen mode.
    pub fullscreen: bool,
    /// The minimum size: the one that was set, or else the initial size.
    pub minimum_size: (usize, usize),
    /// The event handler.
    pub handler: H,
    /// The functions that were dispatched before the start, in the order of
    /// dispatch: the platform layer hands them to the UI thread once the
    /// window is up.
    pub pending: Vec<T>,
}

impl<'a, H: Handler> Options<'a, H> {
    /// Opens the window: records in `state` that it was started and hands back
    /// what the platform layer opens it with, together with the functions that
    /// waited for the window. A process has a single window: a second start is
    /// a programming error (the platform layer panics on it), so the window
    /// must not have been started yet.
    pub fn start<T>(self, state: &mut Lifecycle<T>) -> (launch: Launch<'a, H, T>)
        requires
            !old(state)@.0,
        ensures
            answer(old(state)@.0, Request::<T>::Start) == Action::Launch,
            final(state)@ == next_state(old(state)@, Request::<T>::Start),
            final(state)@.0,
            final(state)@.1 == Seq::<T>::empty(),
            launch.pending@ == handed_over(old(state)@, Request::<T>::Start),
            launch.pending@ == old(state)@.1,
            launch.html@ == self.html_view(),
            launch.width == self.width_view(),
            launch.height == self.height_view(),
            launch.fullscreen == self.fullscreen_view(),
            launch.minimum_size == self.effective_minimum_size(),
            launch.handler == self.handler_view(),
    {
        let pending = state.launch();
        let minimum_size = match self.minimum_size {
            Some(size) => size,
            None => (self.width, self.height),
        };
        let Options { html, width, height, fullscreen, handler, .. } = self;
        Launch { html, width, height, fullscreen, minimum_size, handler, pending }
    }
}

} // verus!
