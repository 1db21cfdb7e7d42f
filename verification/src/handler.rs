use vstd::prelude::*;

verus! {

/// A link between the web view and your application.
///
/// A `Window` is only handed out on the UI thread, and it cannot be sent to
/// another thread.
#[derive(Clone, Copy)]
pub struct Window {
    ui_thread_only: std::marker::PhantomData<std::rc::Rc<()>>,
}

impl Window {
    /// Makes a link to the web view. The platform layer calls this on the UI
    /// thread only, when it hands a link to a handler or a dispatched function.
    pub fn new() -> (win: Window) {
        Window { ui_thread_only: std::marker::PhantomData }
    }
}

/// An event handler.
pub trait Handler: Sized + 'static {
    /// Called when a message has been sent from the webpage.
    ///
    /// By default the message is ignored and the handler stays as it was.
    fn message(&mut self, win: Window, msg: &str)
        default_ensures
            *final(self) == *old(self),
    {
        let _ = (win, msg);
    }

    /// A warning that the system *may* be about to unceremoniously kill
    /// your app. Saving things is probably a good idea.
    ///
    /// By default the warning is ignored and the handler stays as it was.
    fn suspend(&mut self, win: Window)
        default_ensures
            *final(self) == *old(self),
    {
        let _ = win;
    }
}

/// Calls a closure that was given as a handler, once, with the window and the
/// message. The closure is the caller's code: all that is claimed of the call
/// is that it happened with these arguments, so that the closure's own
/// `ensures`, if it has any, hold of it where its `requires` held of them;
/// nothing is claimed of what the closure does.
#[verifier::external_body]
fn call_message_closure<F: FnMut(Window, &str)>(f: &mut F, win: Window, msg: &str)
    ensures
        call_requires(*old(f), (win, msg)) ==> call_ensures(*old(f), (win, msg), ()),
{
    f(win, msg)
}

impl<F: FnMut(Window, &str) + 'static> Handler for F {
    /// Hands the message to the closure: the closure is called once, with
    /// the window and the message.
    fn message(&mut self, win: Window, msg: &str)
        ensures
            call_requires(*old(self), (win, msg)) ==> call_ensures(*old(self), (win, msg), ()),
    {
        call_message_closure(self, win, msg)
    }
}

impl Handler for () {}

} // verus!
