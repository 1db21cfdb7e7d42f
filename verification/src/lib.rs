//! Lets you open and talk to a single cross-platform web view.
//!
//! The webpage also has some extra capabilities:
//!
//! - `window.tether(string)` sends a message to your application.
//! - `document.title` sets the window's title.

use vstd::prelude::*;

use crate::lifecycle::{handed_over, next_state};

pub mod options;
pub mod escape;
pub mod handler;
pub mod lifecycle;

pub use escape::escape;
pub use handler::{Handler, Window};
pub use lifecycle::{Action, Lifecycle, Request};
pub use options::{Launch, Options};

verus! {

/// Creates a new window builder. You should probably call this first!
pub fn builder() -> (opts: Options<'static, ()>)
    ensures
        opts.is_default(),
{
    Options::new()
}

/// Schedules the provided function to eventually run on the UI thread.
///
/// This is the only way to talk to the window from another thread. Once the
/// window was started, the function is handed back to be given to the UI
/// thread at once; before that, it is kept in `state` and handed over when the
/// window starts (see `Options::start`).
pub fn dispatch<F: FnOnce(Window) + Send + 'static>(state: &mut Lifecycle<F>, f: F) -> (scheduled:
    Option<F>)
    ensures
        final(state)@ == next_state(old(state)@, Request::Dispatch(f)),
        scheduled is Some <==> old(state)@.0,
        scheduled matches Some(g) ==> g == f && seq![g] == handed_over(
            old(state)@,
            Request::Dispatch(f),
        ),
        scheduled is None ==> final(state)@.1 == old(state)@.1.push(f) && handed_over(
            old(state)@,
            Request::Dispatch(f),
        ) == Seq::<F>::empty(),
        final(state)@.0 == old(state)@.0,
{
    state.offer(f)
}

} // verus!
