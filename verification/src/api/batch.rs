//! The window of running requests of a WebSocket batch.
//!
//! At most as many requests of a batch run at once as permits were reserved for
//! it. Each completion admits one more request, whether or not the completed one
//! is next in order, so that a slow request at the head does not hold up the
//! rest. The responses are sent in the order of the requests.

use vstd::prelude::*;

verus! {

/// The state of a batch.
pub struct BatchState<T> {
    /// Number of requests.
    pub total: nat,
    /// Number of requests that may run at once.
    pub window: nat,
    /// Number of requests that have been started; they are the first ones.
    pub started: nat,
    /// Number of requests that run.
    pub running: nat,
    /// The response to each request, as far as it is there.
    pub responses: Seq<Option<T>>,
}

/// Number of missing responses among the first `n`.
pub open spec fn missing<T>(responses: Seq<Option<T>>, n: int) -> nat
    decreases n,
{
    if n <= 0 {
        0
    } else {
        missing(responses, n - 1) + if responses[n - 1] is None {
            1nat
        } else {
            0nat
        }
    }
}

/// The responses that are there, in order.
pub open spec fn present<T>(responses: Seq<Option<T>>) -> Seq<T>
    decreases responses.len(),
{
    if responses.len() == 0 {
        Seq::empty()
    } else {
        match responses.last() {
            Some(response) => present(responses.drop_last()).push(response),
            None => present(responses.drop_last()),
        }
    }
}

impl<T> BatchState<T> {
    /// Whether the state is consistent: the started requests without a response
    /// are those that run, and the window is full as long as requests wait.
    pub open spec fn wf(self) -> bool {
        &&& self.window > 0
        &&& self.started <= self.total
        &&& self.responses.len() == self.total
        &&& forall|i: int| self.started <= i < self.total ==> #[trigger] self.responses[i] is None
        &&& self.running == missing(self.responses, self.started as int)
        &&& self.running <= self.window
        &&& self.started < self.total ==> self.running == self.window
    }

    /// Whether request `i` runs.
    pub open spec fn runs(self, i: int) -> bool {
        0 <= i < self.started && self.responses[i] is None
    }

    /// Whether every request has a response.
    pub open spec fn done(self) -> bool {
        self.running == 0
    }

    /// The state at the start of a batch.
    pub open spec fn initial(total: nat, permits: nat) -> Self {
        let started = if total < permits {
            total
        } else {
            permits
        };
        BatchState {
            total,
            window: permits,
            started,
            running: started,
            responses: Seq::new(total, |i: int| None),
        }
    }

    /// The state once request `i` has got its response: where requests wait, one
    /// more is started.
    pub open spec fn completed(self, i: int, response: T) -> Self {
        let waits = self.started < self.total;
        BatchState {
            started: if waits {
                self.started + 1
            } else {
                self.started
            },
            running: if waits {
                self.running
            } else {
                (self.running - 1) as nat
            },
            responses: self.responses.update(i, Some(response)),
            ..self
        }
    }
}

/// The requests of a batch that run, and the responses so far.
#[derive(Debug)]
pub struct BatchWindow<T> {
    window: usize,
    started: usize,
    running: usize,
    responses: Vec<Option<T>>,
}

impl<T> View for BatchWindow<T> {
    type V = BatchState<T>;

    closed spec fn view(&self) -> BatchState<T> {
        BatchState {
            total: self.responses@.len(),
            window: self.window as nat,
            started: self.started as nat,
            running: self.running as nat,
            responses: self.responses@,
        }
    }
}

impl<T> BatchWindow<T> {
    /// The state is always consistent.
    #[verifier::type_invariant]
    closed spec fn is_consistent(self) -> bool {
        self@.wf()
    }

    /// Starts a batch of `total` requests with the given number of permits. The
    /// first requests, as many as `started` says, are to be run.
    pub fn new(total: usize, permits: usize) -> (r: Self)
        requires
            permits > 0,
        ensures
            r@ == BatchState::<T>::initial(total as nat, permits as nat),
            r@.wf(),
    {
        let mut responses: Vec<Option<T>> = Vec::new();
        let mut i: usize = 0;
        while i < total
            invariant
                i <= total,
                responses@ == Seq::new(i as nat, |j: int| None::<T>),
            decreases total - i,
        {
            responses.push(None);
            assert(responses@ =~= Seq::new((i + 1) as nat, |j: int| None::<T>));
            i += 1;
        }
        let started: usize = if total < permits {
            total
        } else {
            permits
        };
        proof {
            all_missing(responses@, started as int);
        }
        BatchWindow { window: permits, started, running: started, responses }
    }

    /// Number of requests that have been started; they are the first ones.
    pub fn started(&self) -> (r: usize)
        ensures
            r == self@.started,
            self@.wf(),
    {
        proof {
            use_type_invariant(self);
        }
        self.started
    }

    /// Number of requests that run.
    pub fn running(&self) -> (r: usize)
        ensures
            r == self@.running,
            self@.wf(),
    {
        proof {
            use_type_invariant(self);
        }
        self.running
    }

    /// Whether request `index` runs.
    pub fn is_running(&self, index: usize) -> (r: bool)
        ensures
            r == self@.runs(index as int),
            self@.wf(),
    {
        proof {
            use_type_invariant(self);
        }
        if index < self.started {
            match &self.responses[index] {
                Some(_) => false,
                None => true,
            }
        } else {
            false
        }
    }

    /// Whether every request has a response.
    pub fn is_done(&self) -> (r: bool)
        ensures
            r == self@.done(),
            self@.wf(),
    {
        proof {
            use_type_invariant(self);
        }
        self.running == 0
    }

    /// Takes the response to a running request; gives the index of the request
    /// that is to be run next, where one waits.
    pub fn complete(self, index: usize, response: T) -> (r: (Self, Option<usize>))
        requires
            self@.runs(index as int),
        ensures
            r.0@ == self@.completed(index as int, response),
            r.0@.wf(),
            r.1 == if self@.started < self@.total {
                Some(self@.started as usize)
            } else {
                None
            },
    {
        proof {
            use_type_invariant(&self);
            one_less_missing(self.responses@, self.started as int, index as int, response);
        }
        let window = self.window;
        let started = self.started;
        let running = self.running;
        let mut responses = self.responses;
        let total = responses.len();
        let ghost before = responses@;
        responses.set(index, Some(response));
        assert(responses@ == before.update(index as int, Some(response)));
        if started < total {
            proof {
                assert(responses@[started as int] is None);
                assert(missing(responses@, started + 1) == missing(responses@, started as int) + 1);
            }
            let next = BatchWindow { window, started: started + 1, running, responses };
            (next, Some(started))
        } else {
            let next = BatchWindow { window, started, running: running - 1, responses };
            (next, None)
        }
    }

    /// The responses so far, in the order of their requests.
    pub fn into_responses(self) -> (r: Vec<T>)
        ensures
            r@ == present(self@.responses),
            self@.done() ==> r@.len() == self@.total && forall|i: int|
                0 <= i < self@.total ==> self@.responses[i] == Some(#[trigger] r@[i]),
    {
        proof {
            use_type_invariant(&self);
        }
        let ghost all = self.responses@;
        let mut slots = self.responses;
        let mut stack: Vec<T> = Vec::new();
        while slots.len() > 0
            invariant
                present(all) == present(slots@) + stack@.reverse(),
            decreases slots@.len(),
        {
            let ghost before = slots@;
            let ghost stacked = stack@;
            if let Some(slot) = slots.pop() {
                assert(slots@ == before.drop_last());
                match slot {
                    Some(response) => {
                        stack.push(response);
                        assert(stack@.reverse() =~= seq![response] + stacked.reverse());
                        assert(present(before) == present(slots@).push(response));
                        assert(present(slots@).push(response) + stacked.reverse() =~= present(
                            slots@,
                        ) + stack@.reverse());
                    },
                    None => {
                        assert(present(before) == present(slots@));
                    },
                }
            }
        }
        let mut out: Vec<T> = Vec::new();
        assert(present(slots@) + stack@.reverse() =~= out@ + stack@.reverse());
        while stack.len() > 0
            invariant
                present(all) == out@ + stack@.reverse(),
            decreases stack@.len(),
        {
            let ghost stacked = stack@;
            let ghost taken = out@;
            if let Some(response) = stack.pop() {
                out.push(response);
                assert(stacked.reverse() =~= seq![response] + stack@.reverse());
                assert(taken + stacked.reverse() =~= out@ + stack@.reverse());
            }
        }
        assert(out@ + stack@.reverse() =~= out@);
        proof {
            if self@.done() {
                done_means_all_started(self@);
                none_missing(all, all.len() as int);
                all_present(all);
            }
        }
        out
    }
}

/// Where nothing is there, everything is missing.
proof fn all_missing<T>(responses: Seq<Option<T>>, n: int)
    requires
        0 <= n <= responses.len(),
        forall|i: int| 0 <= i < n ==> #[trigger] responses[i] is None,
    ensures
        missing(responses, n) == n,
    decreases n,
{
    if n > 0 {
        all_missing(responses, n - 1);
    }
}

/// Where nothing is missing, everything is there.
proof fn none_missing<T>(responses: Seq<Option<T>>, n: int)
    requires
        0 <= n <= responses.len(),
    ensures
        missing(responses, n) == 0 ==> forall|i: int|
            0 <= i < n ==> #[trigger] responses[i] is Some,
    decreases n,
{
    if n > 0 {
        none_missing(responses, n - 1);
    }
}

/// A response that arrives leaves one less missing.
proof fn one_less_missing<T>(responses: Seq<Option<T>>, n: int, i: int, response: T)
    requires
        0 <= n <= responses.len(),
        0 <= i < responses.len(),
        responses[i] is None,
    ensures
        missing(responses.update(i, Some(response)), n) == missing(responses, n) - if i < n {
            1int
        } else {
            0int
        },
    decreases n,
{
    if n > 0 {
        one_less_missing(responses, n - 1, i, response);
    }
}

/// Where every response is there, those that are there are all of them.
proof fn all_present<T>(responses: Seq<Option<T>>)
    requires
        forall|i: int| 0 <= i < responses.len() ==> #[trigger] responses[i] is Some,
    ensures
        present(responses).len() == responses.len(),
        forall|i: int|
            0 <= i < responses.len() ==> responses[i] == Some(#[trigger] present(responses)[i]),
    decreases responses.len(),
{
    if responses.len() > 0 {
        let init = responses.drop_last();
        assert forall|i: int| 0 <= i < init.len() implies #[trigger] init[i] is Some by {
            assert(init[i] == responses[i]);
        }
        all_present(init);
        assert forall|i: int| 0 <= i < responses.len() implies responses[i] == Some(
            #[trigger] present(responses)[i],
        ) by {
            if i < init.len() {
                assert(init[i] == responses[i]);
                assert(present(responses)[i] == present(init)[i]);
            }
        }
    }
}

/// A batch of which nothing runs has started and answered every request.
pub proof fn done_means_all_started<T>(state: BatchState<T>)
    requires
        state.wf(),
        state.done(),
    ensures
        state.started == state.total,
        forall|i: int| 0 <= i < state.total ==> #[trigger] state.responses[i] is Some,
{
    none_missing(state.responses, state.started as int);
}

/// The permits of a batch bound what runs at once, from its start and through
/// every completion, and the window stays full as long as requests wait.
pub proof fn running_stays_within_the_permits<T>(
    total: nat,
    permits: nat,
    state: BatchState<T>,
    i: int,
    response: T,
)
    requires
        permits > 0,
        state.wf(),
        state.runs(i),
    ensures
        BatchState::<T>::initial(total, permits).wf(),
        BatchState::<T>::initial(total, permits).running <= permits,
        state.completed(i, response).wf(),
        state.completed(i, response).window == state.window,
        state.completed(i, response).running <= state.window,
        state.completed(i, response).started < state.total ==> state.completed(
            i,
            response,
        ).running == state.window,
{
    let start = BatchState::<T>::initial(total, permits);
    all_missing(start.responses, start.started as int);
    one_less_missing(state.responses, state.started as int, i, response);
    let next = state.completed(i, response);
    if state.started < state.total {
        assert(next.responses[state.started as int] is None);
        assert(missing(next.responses, (state.started + 1) as int) == missing(
            next.responses,
            state.started as int,
        ) + 1);
    }
}

/// Each completion answers exactly one request, keeps every other response and
/// starts at most one request, the first that waits: no request is started
/// twice or left out.
pub proof fn requests_start_once_in_order<T>(state: BatchState<T>, i: int, response: T)
    requires
        state.wf(),
        state.runs(i),
    ensures
        state.completed(i, response).responses[i] == Some(response),
        forall|j: int|
            0 <= j < state.total && j != i ==> #[trigger] state.completed(
                i,
                response,
            ).responses[j] == state.responses[j],
        forall|j: int|
            state.completed(i, response).runs(j) <==> (state.runs(j) && j != i) || (j
                == state.started && j < state.total),
{
}

/// The state of a batch after the given completions, each the index of a request
/// and its response, in the order in which they came.
pub open spec fn after_completions<T>(
    total: nat,
    permits: nat,
    completions: Seq<(int, T)>,
) -> BatchState<T>
    decreases completions.len(),
{
    if completions.len() == 0 {
        BatchState::initial(total, permits)
    } else {
        after_completions(total, permits, completions.drop_last()).completed(
            completions.last().0,
            completions.last().1,
        )
    }
}

/// Whether every completion is that of a request that runs at that time.
pub open spec fn completions_are_of_running_requests<T>(
    total: nat,
    permits: nat,
    completions: Seq<(int, T)>,
) -> bool
    decreases completions.len(),
{
    completions.len() > 0 ==> {
        &&& completions_are_of_running_requests(total, permits, completions.drop_last())
        &&& after_completions(total, permits, completions.drop_last()).runs(completions.last().0)
    }
}

/// In whatever order the requests of a batch complete, at most as many run at
/// once as there are permits, each response ends up in the place of its request,
/// and when nothing runs any more every request has completed exactly once.
pub proof fn responses_end_up_in_request_order<T>(
    total: nat,
    permits: nat,
    completions: Seq<(int, T)>,
)
    requires
        permits > 0,
        completions_are_of_running_requests(total, permits, completions),
    ensures
        ({
            let state = after_completions(total, permits, completions);
            &&& state.wf()
            &&& state.total == total
            &&& state.window == permits
            &&& state.running <= permits
            &&& completions.len() + state.running == state.started
            &&& forall|k: int|
                0 <= k < completions.len() ==> 0 <= (#[trigger] completions[k]).0 < total
                    && state.responses[completions[k].0] == Some(completions[k].1)
            &&& state.done() ==> completions.len() == total
        }),
    decreases completions.len(),
{
    if completions.len() == 0 {
        let start = BatchState::<T>::initial(total, permits);
        all_missing(start.responses, start.started as int);
    } else {
        let earlier = completions.drop_last();
        responses_end_up_in_request_order(total, permits, earlier);
        let before = after_completions(total, permits, earlier);
        let (i, response) = completions.last();
        running_stays_within_the_permits(total, permits, before, i, response);
        let state = after_completions(total, permits, completions);
        assert(before.running > 0) by {
            if before.running == 0 {
                none_missing(before.responses, before.started as int);
            }
        }
        assert forall|k: int| 0 <= k < completions.len() implies 0 <= (#[trigger] completions[k]).0
            < total && state.responses[completions[k].0] == Some(completions[k].1) by {
            if k < earlier.len() {
                assert(earlier[k] == completions[k]);
                assert(before.responses[completions[k].0] is Some);
            }
        }
        if state.done() {
            done_means_all_started(state);
        }
    }
}

} // verus!
