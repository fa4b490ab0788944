//! The state that a hand-written future shares with the background thread
//! that completes it: polling an unfinished future parks the caller's waker,
//! and completing the future hands back the parked waker to be woken.

use vstd::prelude::*;

verus! {

/// The answer of one poll.
#[derive(Debug, Clone, Copy, PartialEq, Eq)]
pub enum PollState {
    /// The future has completed.
    Ready,
    /// The future has not completed; the caller's waker was kept.
    Pending,
}

/// Whether the future has completed, and the waker of the most recent poll
/// that found it unfinished, if it has not been taken.
#[derive(Debug)]
pub struct SharedState<W> {
    pub completed: bool,
    pub waker: Option<W>,
}

impl<W> SharedState<W> {
    /// The state after a poll with this waker, and the poll's answer.
    pub open spec fn after_poll(self, waker: W) -> (Self, PollState) {
        if self.completed {
            (self, PollState::Ready)
        } else {
            (SharedState { completed: false, waker: Some(waker) }, PollState::Pending)
        }
    }

    /// The state after completion, and the waker to wake.
    pub open spec fn after_complete(self) -> (Self, Option<W>) {
        (SharedState { completed: true, waker: None }, self.waker)
    }

    /// A future that has not completed and has not been polled.
    pub fn new() -> (r: Self)
        ensures
            !r.completed,
            r.waker is None,
    {
        SharedState { completed: false, waker: None }
    }

    /// Polls the future: a completed future is ready and the state is left
    /// alone; otherwise the waker is kept, replacing any earlier one, and the
    /// answer is pending.
    pub fn poll(&mut self, waker: W) -> (r: PollState)
        ensures
            (*final(self), r) == old(self).after_poll(waker),
    {
        if self.completed {
            PollState::Ready
        } else {
            self.waker = Some(waker);
            PollState::Pending
        }
    }

    /// Marks the future as completed and takes out the kept waker, which the
    /// caller is to wake.
    pub fn complete(&mut self) -> (r: Option<W>)
        ensures
            (*final(self), r) == old(self).after_complete(),
    {
        self.completed = true;
        self.waker.take()
    }
}

/// One operation on the shared state: a poll with a waker, or completion.
pub enum FutureOp<W> {
    Poll(W),
    Complete,
}

/// The state after a run of operations, and the answers of its polls in
/// order.
pub open spec fn after_ops<W>(s: SharedState<W>, ops: Seq<FutureOp<W>>) -> (
    SharedState<W>,
    Seq<PollState>,
)
    decreases ops.len(),
{
    if ops.len() == 0 {
        (s, Seq::empty())
    } else {
        match ops[0] {
            FutureOp::Poll(waker) => {
                let (next, answer) = s.after_poll(waker);
                let (last, answers) = after_ops(next, ops.drop_first());
                (last, seq![answer] + answers)
            },
            FutureOp::Complete => after_ops(s.after_complete().0, ops.drop_first()),
        }
    }
}

/// A ready future stays ready: from a completed state, any run of polls and
/// completions keeps it completed, and every poll in the run answers ready.
pub proof fn lemma_ready_stays_ready<W>(s: SharedState<W>, ops: Seq<FutureOp<W>>)
    requires
        s.completed,
    ensures
        after_ops(s, ops).0.completed,
        forall|i: int|
            0 <= i < after_ops(s, ops).1.len() ==> #[trigger] after_ops(s, ops).1[i]
                == PollState::Ready,
    decreases ops.len(),
{
    if ops.len() > 0 {
        match ops[0] {
            FutureOp::Poll(waker) => {
                let (next, answer) = s.after_poll(waker);
                lemma_ready_stays_ready(next, ops.drop_first());
                let answers = after_ops(s, ops).1;
                let rest = after_ops(next, ops.drop_first()).1;
                assert forall|i: int| 0 <= i < answers.len() implies #[trigger] answers[i]
                    == PollState::Ready by {
                    if i > 0 {
                        assert(answers[i] == rest[i - 1]);
                    }
                }
            },
            FutureOp::Complete => {
                lemma_ready_stays_ready(s.after_complete().0, ops.drop_first());
            },
        }
    }
}

/// Once completed, a future stays ready: every later poll answers ready,
/// whatever its waker, and leaves the state as it is.
pub proof fn lemma_ready_after_complete<W>(s: SharedState<W>, waker: W)
    ensures
        s.after_complete().0.after_poll(waker).1 == PollState::Ready,
        s.after_complete().0.after_poll(waker).0 == s.after_complete().0,
{
}

/// The waker that completion hands back is the one of the latest pending
/// poll: after pending polls with `first` and then `second`, completing
/// wakes `second`.
pub proof fn lemma_complete_wakes_latest_poller<W>(s: SharedState<W>, first: W, second: W)
    requires
        !s.completed,
    ensures
        s.after_poll(first).1 == PollState::Pending,
        s.after_poll(first).0.after_poll(second).1 == PollState::Pending,
        s.after_poll(first).0.after_poll(second).0.after_complete().1 == Some(second),
{
}

/// A waker is handed back at most once: completing a second time finds none.
pub proof fn lemma_wake_at_most_once<W>(s: SharedState<W>)
    ensures
        s.after_complete().0.after_complete().1 is None,
        s.after_complete().0.after_complete().0 == s.after_complete().0,
{
}

/// Until completion no poll is ready.
pub proof fn lemma_pending_until_complete<W>(s: SharedState<W>, waker: W)
    requires
        !s.completed,
    ensures
        s.after_poll(waker).1 == PollState::Pending,
        !s.after_poll(waker).0.completed,
{
}

} // verus!
