//! The lifecycle of one asynchronous submission.
//!
//! A [`Submission`] tracks a single in-flight submit operation: idle until
//! invoked, pending while the operation runs (holding the submitted input),
//! and settled with the operation's result.  Invoking it again while pending
//! is ignored, so at most one operation is ever in flight; a settled action
//! remains invocable.  The state maps to exactly one of four mutually
//! exclusive render slots.

use vstd::prelude::*;

verus! {

/// The state of the submission: exactly one holds at any time.
pub enum SubmitState<I, T, E> {
    /// No invocation yet, or the previous one fully settled and observed.
    Idle,
    /// An asynchronous operation is in flight, holding the submitted input.
    Pending(I),
    /// The operation completed with this result.
    Settled(Result<T, E>),
}

/// Which of the mutually exclusive render slots is active.
#[derive(Clone, Copy, Debug, PartialEq, Eq, Structural)]
pub enum RenderSlot {
    /// Before any invocation: neither success nor failure renders.
    Neutral,
    /// While the operation is in flight.
    Loading,
    /// After the operation settled with a success value.
    Success,
    /// After the operation settled with an error.
    Failure,
}

/// The slot a state renders into.
pub open spec fn spec_slot<I, T, E>(s: SubmitState<I, T, E>) -> RenderSlot {
    match s {
        SubmitState::Idle => RenderSlot::Neutral,
        SubmitState::Pending(_) => RenderSlot::Loading,
        SubmitState::Settled(Ok(_)) => RenderSlot::Success,
        SubmitState::Settled(Err(_)) => RenderSlot::Failure,
    }
}

/// What invoking the submission does to a state: while pending the
/// invocation is ignored, otherwise the state becomes pending on the input
/// and exactly one new operation starts.
pub open spec fn spec_submit<I, T, E>(s: SubmitState<I, T, E>, input: I) -> (SubmitState<
    I,
    T,
    E,
>, bool) {
    if s is Pending {
        (s, false)
    } else {
        (SubmitState::Pending(input), true)
    }
}

/// What the completion of the in-flight operation does to a state.
pub open spec fn spec_resolve<I, T, E>(s: SubmitState<I, T, E>, outcome: Result<T, E>) -> SubmitState<
    I,
    T,
    E,
> {
    SubmitState::Settled(outcome)
}

/// One asynchronous submission, driven by [`Submission::submit`] and
/// [`Submission::resolve`] alone.
pub struct Submission<I, T, E> {
    pub state: SubmitState<I, T, E>,
}

impl<I, T, E> Submission<I, T, E> {
    /// A submission that has never been invoked.
    pub fn new() -> (r: Self)
        ensures
            r.state is Idle,
    {
        Submission { state: SubmitState::Idle }
    }

    /// Invokes the submission with `input`.  Returns whether a new operation
    /// was started: an invocation while one is already pending is ignored,
    /// so a second operation is never started for the same action.
    pub fn submit(&mut self, input: I) -> (accepted: bool)
        ensures
            (final(self).state, accepted) == spec_submit(old(self).state, input),
            accepted <==> !(old(self).state is Pending),
            accepted ==> final(self).state == SubmitState::<I, T, E>::Pending(input),
            !accepted ==> final(self).state == old(self).state,
    {
        let started = match &self.state {
            SubmitState::Pending(_) => false,
            _ => true,
        };
        if started {
            self.state = SubmitState::Pending(input);
        }
        started
    }

    /// Records the completion of the in-flight operation.
    pub fn resolve(&mut self, outcome: Result<T, E>)
        requires
            old(self).state is Pending,
        ensures
            final(self).state == spec_resolve(old(self).state, outcome),
    {
        self.state = SubmitState::Settled(outcome);
    }

    /// Whether an operation is in flight.
    pub fn is_pending(&self) -> (r: bool)
        ensures
            r == (self.state is Pending),
    {
        match &self.state {
            SubmitState::Pending(_) => true,
            _ => false,
        }
    }

    /// The render slot the current state activates; the other slots are
    /// inactive.
    pub fn active_slot(&self) -> (r: RenderSlot)
        ensures
            r == spec_slot(self.state),
    {
        match &self.state {
            SubmitState::Idle => RenderSlot::Neutral,
            SubmitState::Pending(_) => RenderSlot::Loading,
            SubmitState::Settled(Ok(_)) => RenderSlot::Success,
            SubmitState::Settled(Err(_)) => RenderSlot::Failure,
        }
    }
}

/// The default text a rendering layer shows for a slot when the caller
/// supplies no view of its own.
pub fn default_slot_text(slot: RenderSlot) -> (r: &'static str)
    ensures
        slot == RenderSlot::Loading ==> r@ == "Loading..."@,
        slot == RenderSlot::Failure ==> r@ == "Error"@,
        slot == RenderSlot::Neutral || slot == RenderSlot::Success ==> r@ == ""@,
{
    match slot {
        RenderSlot::Neutral => "",
        RenderSlot::Loading => "Loading...",
        RenderSlot::Success => "",
        RenderSlot::Failure => "Error",
    }
}

/// The submission lifecycle: invoking an idle submission with `input` makes
/// it pending on exactly that input and activates only the loading slot;
/// resolving it with a success activates only the success slot, and with an
/// error only the failure slot.
pub proof fn lemma_submission_lifecycle<I, T, E>(input: I, outcome: Result<T, E>)
    ensures
        spec_submit(SubmitState::<I, T, E>::Idle, input) == (SubmitState::<I, T, E>::Pending(input),
        true),
        spec_slot(spec_submit(SubmitState::<I, T, E>::Idle, input).0) == RenderSlot::Loading,
        outcome is Ok ==> spec_slot(
            spec_resolve(spec_submit(SubmitState::<I, T, E>::Idle, input).0, outcome),
        ) == RenderSlot::Success,
        outcome is Err ==> spec_slot(
            spec_resolve(spec_submit(SubmitState::<I, T, E>::Idle, input).0, outcome),
        ) == RenderSlot::Failure,
        RenderSlot::Success != RenderSlot::Failure && RenderSlot::Success != RenderSlot::Loading
            && RenderSlot::Success != RenderSlot::Neutral && RenderSlot::Failure
            != RenderSlot::Loading && RenderSlot::Failure != RenderSlot::Neutral,
{
}

/// Re-invocation while pending is ignored: the state keeps the original
/// input and no second operation starts.
pub proof fn lemma_submit_while_pending_ignored<I, T, E>(first: I, second: I)
    ensures
        spec_submit(SubmitState::<I, T, E>::Pending(first), second) == (SubmitState::<
            I,
            T,
            E,
        >::Pending(first), false),
{
}

} // verus!
