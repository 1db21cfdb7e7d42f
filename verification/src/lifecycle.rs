//! Whether the single window of the process has been started, which functions
//! wait for it, and what the platform layer is told to do about each request.
//!
//! The platform layer relies on these guarantees: the window is started at
//! most once; no function is handed to the UI thread before the window was
//! started; and every function that is dispatched is handed to the UI thread
//! exactly once, in the order of dispatch, once the window is up. They are
//! decided here and proved as laws over every sequence of requests.
use vstd::prelude::*;

verus! {

/// A request that reaches the library from the application.
pub enum Request<T> {
    /// The application asks to open the window.
    Start,
    /// The application asks to run a function on the UI thread.
    Dispatch(T),
}

/// What the platform layer is told to do with a request.
#[derive(Clone, Copy, Debug, PartialEq, Eq, Structural)]
pub enum Action {
    /// Open the window, then hand the functions that waited for it to the UI
    /// thread.
    Launch,
    /// Refuse the request: the window was already started.
    Refuse,
    /// Hand the function to the UI thread.
    Schedule,
    /// Keep the function until the window is started.
    Hold,
}

/// The state of a process: whether the window was started, and the functions
/// that wait for it, in the order they were dispatched.
pub type LifecycleView<T> = (bool, Seq<T>);

/// The answer to a request, given whether the window was started before it.
pub open spec fn answer<T>(loaded: bool, request: Request<T>) -> Action {
    match request {
        Request::Start => if loaded { Action::Refuse } else { Action::Launch },
        Request::Dispatch(_) => if loaded { Action::Schedule } else { Action::Hold },
    }
}

/// The state after a request. Starting empties the waiting functions, which
/// are handed over at that moment; a function dispatched before the start
/// waits.
pub open spec fn next_state<T>(s: LifecycleView<T>, request: Request<T>) -> LifecycleView<T> {
    match request {
        Request::Start => if s.0 { s } else { (true, Seq::empty()) },
        Request::Dispatch(f) => if s.0 { s } else { (false, s.1.push(f)) },
    }
}

/// The functions handed to the UI thread in answer to a request, in order.
pub open spec fn handed_over<T>(s: LifecycleView<T>, request: Request<T>) -> Seq<T> {
    match request {
        Request::Start => if s.0 { Seq::empty() } else { s.1 },
        Request::Dispatch(f) => if s.0 { seq![f] } else { Seq::empty() },
    }
}

/// The state after a sequence of requests, beginning with a process in which
/// nothing was started and nothing waits.
pub open spec fn state_after<T>(requests: Seq<Request<T>>) -> LifecycleView<T>
    decreases requests.len(),
{
    if requests.len() == 0 {
        (false, Seq::empty())
    } else {
        next_state(state_after(requests.drop_last()), requests.last())
    }
}

/// The answers to a sequence of requests, one for each, in order.
pub open spec fn answers<T>(requests: Seq<Request<T>>) -> Seq<Action>
    decreases requests.len(),
{
    if requests.len() == 0 {
        Seq::empty()
    } else {
        answers(requests.drop_last()).push(
            answer(state_after(requests.drop_last()).0, requests.last()),
        )
    }
}

/// All the functions handed to the UI thread in answer to a sequence of
/// requests, in the order they were handed over.
pub open spec fn delivered<T>(requests: Seq<Request<T>>) -> Seq<T>
    decreases requests.len(),
{
    if requests.len() == 0 {
        Seq::empty()
    } else {
        delivered(requests.drop_last()) + handed_over(
            state_after(requests.drop_last()),
            requests.last(),
        )
    }
}

/// The functions that a sequence of requests dispatches, in order.
pub open spec fn dispatched<T>(requests: Seq<Request<T>>) -> Seq<T>
    decreases requests.len(),
{
    if requests.len() == 0 {
        Seq::empty()
    } else {
        match requests.last() {
            Request::Start => dispatched(requests.drop_last()),
            Request::Dispatch(f) => dispatched(requests.drop_last()).push(f),
        }
    }
}

/// Whether some request among the first `n` asks to start the window.
pub open spec fn start_requested_before<T>(requests: Seq<Request<T>>, n: int) -> bool {
    exists|j: int| 0 <= j < n && #[trigger] requests[j] is Start
}

/// Whether a request asks to start among the first `n` is the same for a
/// sequence and for the sequence without its last request, as long as `n`
/// leaves that last request out.
proof fn lemma_start_requested_prefix<T>(requests: Seq<Request<T>>, n: int)
    requires
        requests.len() > 0,
        0 <= n < requests.len(),
    ensures
        start_requested_before(requests.drop_last(), n) == start_requested_before(requests, n),
{
    let prefix = requests.drop_last();
    if start_requested_before(prefix, n) {
        let j = choose|j: int| 0 <= j < n && #[trigger] prefix[j] is Start;
        assert(requests[j] is Start);
    }
    if start_requested_before(requests, n) {
        let j = choose|j: int| 0 <= j < n && #[trigger] requests[j] is Start;
        assert(prefix[j] is Start);
    }
}

/// The window counts as started after a sequence of requests exactly when one
/// of them asked to start it.
pub proof fn lemma_started_after<T>(requests: Seq<Request<T>>)
    ensures
        state_after(requests).0 == start_requested_before(requests, requests.len() as int),
    decreases requests.len(),
{
    if requests.len() > 0 {
        let prefix = requests.drop_last();
        lemma_started_after(prefix);
        lemma_start_requested_prefix(requests, prefix.len() as int);
        if requests.last() is Start {
            assert(requests[requests.len() - 1] is Start);
        }
    }
}

/// Each request is answered by what was asked and by whether an earlier request
/// asked to start the window: the first request to start launches it, every
/// later one is refused; a function is scheduled when an earlier request asked
/// to start the window, and held otherwise.
pub proof fn law_answers<T>(requests: Seq<Request<T>>)
    ensures
        answers(requests).len() == requests.len(),
        forall|i: int|
            0 <= i < requests.len() ==> #[trigger] answers(requests)[i] == answer(
                start_requested_before(requests, i),
                requests[i],
            ),
    decreases requests.len(),
{
    if requests.len() > 0 {
        let prefix = requests.drop_last();
        law_answers(prefix);
        assert forall|i: int| 0 <= i < requests.len() implies #[trigger] answers(requests)[i]
            == answer(start_requested_before(requests, i), requests[i]) by {
            lemma_start_requested_prefix(requests, i);
            if i < prefix.len() {
                assert(prefix[i] == requests[i]);
            } else {
                lemma_started_after(prefix);
            }
        }
    }
}

/// Handling one more request extends the state, the answers and the functions
/// handed over by `next_state`, `answer` and `handed_over` on the state reached
/// so far: a `Lifecycle` that starts from `new` and goes through `dispatch` and
/// `Options::start` follows `state_after`, `answers` and `delivered`.
pub proof fn law_requests_extend<T>(requests: Seq<Request<T>>, request: Request<T>)
    ensures
        state_after(requests.push(request)) == next_state(state_after(requests), request),
        answers(requests.push(request)) == answers(requests).push(
            answer(state_after(requests).0, request),
        ),
        delivered(requests.push(request)) == delivered(requests) + handed_over(
            state_after(requests),
            request,
        ),
{
    assert(requests.push(request).drop_last() =~= requests);
}

/// Every dispatched function is accounted for exactly once: it was either
/// handed to the UI thread or still waits, and the functions handed over and
/// the waiting ones, in this order, are the dispatched ones in the order of
/// dispatch. Before the start nothing was handed over; after it nothing waits.
/// So once the window was started, every function dispatched so far, before
/// the start or after it, has been handed to the UI thread exactly once, in
/// the order of dispatch.
pub proof fn law_every_dispatch_delivered_once<T>(requests: Seq<Request<T>>)
    ensures
        delivered(requests) + state_after(requests).1 == dispatched(requests),
        !state_after(requests).0 ==> delivered(requests) == Seq::<T>::empty(),
        state_after(requests).0 ==> state_after(requests).1 == Seq::<T>::empty(),
        state_after(requests).0 ==> delivered(requests) == dispatched(requests),
    decreases requests.len(),
{
    if requests.len() == 0 {
        assert(delivered(requests) + state_after(requests).1 =~= dispatched(requests));
    } else {
        let prefix = requests.drop_last();
        law_every_dispatch_delivered_once(prefix);
        let s = state_after(prefix);
        match requests.last() {
            Request::Start => {
                assert(delivered(requests) + state_after(requests).1 =~= dispatched(requests));
            },
            Request::Dispatch(f) => {
                assert(delivered(requests) + state_after(requests).1 =~= dispatched(requests));
            },
        }
        if state_after(requests).0 {
            assert(delivered(requests) + Seq::<T>::empty() =~= delivered(requests));
        }
    }
}

/// The window is launched at most once, whatever the application asks.
pub proof fn law_launch_at_most_once<T>(requests: Seq<Request<T>>)
    ensures
        forall|i: int, j: int|
            0 <= i < j < requests.len() && #[trigger] answers(requests)[i] == Action::Launch
                ==> #[trigger] answers(requests)[j] != Action::Launch,
{
    law_answers(requests);
    assert forall|i: int, j: int|
        0 <= i < j < requests.len() && #[trigger] answers(requests)[i] == Action::Launch
            implies #[trigger] answers(requests)[j] != Action::Launch by {
        assert(requests[i] is Start);
        assert(start_requested_before(requests, j));
    }
}

/// If the application asks to start the window at all, the first such request
/// launches it.
pub proof fn law_first_start_launches<T>(requests: Seq<Request<T>>, i: int)
    requires
        0 <= i < requests.len(),
        requests[i] is Start,
        !start_requested_before(requests, i),
    ensures
        answers(requests)[i] == Action::Launch,
{
    law_answers(requests);
}

/// The answer to the request at `i`, as `law_answers` gives it.
proof fn lemma_answer_at<T>(requests: Seq<Request<T>>, i: int)
    requires
        0 <= i < requests.len(),
    ensures
        answers(requests)[i] == answer(start_requested_before(requests, i), requests[i]),
{
    law_answers(requests);
}

/// No function is handed to the UI thread before the window was launched.
pub proof fn law_no_schedule_before_launch<T>(requests: Seq<Request<T>>)
    ensures
        forall|i: int|
            0 <= i < requests.len() && #[trigger] answers(requests)[i] == Action::Schedule
                ==> exists|j: int| 0 <= j < i && #[trigger] answers(requests)[j] == Action::Launch,
{
    assert forall|i: int|
        0 <= i < requests.len() && #[trigger] answers(requests)[i] == Action::Schedule
            implies exists|j: int| 0 <= j < i && #[trigger] answers(requests)[j] == Action::Launch by {
        lemma_answer_at(requests, i);
        let k = choose|k: int| 0 <= k < i && #[trigger] requests[k] is Start;
        let first = earliest_start(requests, k);
        lemma_answer_at(requests, first);
        assert(0 <= first < i && answers(requests)[first] == Action::Launch);
    }
}

/// Once the window was launched, every function dispatched later is handed to
/// the UI thread at once, and every function dispatched before is held.
pub proof fn law_schedule_after_launch<T>(requests: Seq<Request<T>>)
    ensures
        forall|i: int, j: int|
            0 <= i < j < requests.len() && #[trigger] answers(requests)[i] == Action::Launch
                && #[trigger] requests[j] is Dispatch ==> answers(requests)[j]
                == Action::Schedule,
        forall|i: int, j: int|
            0 <= j < i < requests.len() && #[trigger] answers(requests)[i] == Action::Launch
                && #[trigger] requests[j] is Dispatch ==> answers(requests)[j] == Action::Hold,
{
    assert forall|i: int, j: int|
        0 <= i < j < requests.len() && #[trigger] answers(requests)[i] == Action::Launch
            && #[trigger] requests[j] is Dispatch implies answers(requests)[j]
            == Action::Schedule by {
        law_answers(requests);
        assert(answers(requests)[i] == answer(start_requested_before(requests, i), requests[i]));
        assert(requests[i] is Start);
        assert(start_requested_before(requests, j));
        assert(answers(requests)[j] == answer(start_requested_before(requests, j), requests[j]));
    }
    assert forall|i: int, j: int|
        0 <= j < i < requests.len() && #[trigger] answers(requests)[i] == Action::Launch
            && #[trigger] requests[j] is Dispatch implies answers(requests)[j] == Action::Hold by {
        law_answers(requests);
        assert(answers(requests)[i] == answer(start_requested_before(requests, i), requests[i]));
        assert(answers(requests)[j] == answer(start_requested_before(requests, j), requests[j]));
        if start_requested_before(requests, j) {
            assert(start_requested_before(requests, i));
        }
    }
}

/// The earliest request to start, at or before `k`.
proof fn earliest_start<T>(requests: Seq<Request<T>>, k: int) -> (first: int)
    requires
        0 <= k < requests.len(),
        requests[k] is Start,
    ensures
        0 <= first <= k,
        requests[first] is Start,
        !start_requested_before(requests, first),
    decreases k,
{
    if start_requested_before(requests, k) {
        let j = choose|j: int| 0 <= j < k && #[trigger] requests[j] is Start;
        earliest_start(requests, j)
    } else {
        k
    }
}

/// Records whether the window of this process has been started, and keeps the
/// functions that were dispatched before it was.
pub struct Lifecycle<T> {
    loaded: bool,
    pending: Vec<T>,
}

impl<T> View for Lifecycle<T> {
    type V = LifecycleView<T>;

    closed spec fn view(&self) -> LifecycleView<T> {
        (self.loaded, self.pending@)
    }
}

impl<T> Lifecycle<T> {
    /// A process in which the window was not started yet and no function
    /// waits.
    pub fn new() -> (state: Lifecycle<T>)
        ensures
            state@ == state_after(Seq::<Request<T>>::empty()),
            !state@.0,
            state@.1 == Seq::<T>::empty(),
    {
        Lifecycle { loaded: false, pending: Vec::new() }
    }

    /// Whether the window was started.
    pub fn is_loaded(&self) -> (loaded: bool)
        ensures
            loaded == self@.0,
    {
        self.loaded
    }

    /// Marks the window as started and hands over the functions that waited
    /// for it, in the order of dispatch.
    pub(crate) fn launch(&mut self) -> (pending: Vec<T>)
        requires
            !old(self)@.0,
        ensures
            final(self)@ == next_state(old(self)@, Request::<T>::Start),
            pending@ == handed_over(old(self)@, Request::<T>::Start),
    {
        self.loaded = true;
        let mut pending: Vec<T> = Vec::new();
        std::mem::swap(&mut pending, &mut self.pending);
        pending
    }

    /// Answers a dispatched function: once the window was started it is handed
    /// back to be given to the UI thread; before that it is kept.
    pub(crate) fn offer(&mut self, f: T) -> (scheduled: Option<T>)
        ensures
            final(self)@ == next_state(old(self)@, Request::Dispatch(f)),
            scheduled is Some <==> old(self)@.0,
            scheduled matches Some(g) ==> g == f,
    {
        if self.loaded {
            Some(f)
        } else {
            self.pending.push(f);
            None
        }
    }
}

} // verus!
