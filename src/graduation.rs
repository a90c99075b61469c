//! One graduation run as a state machine: the host asks for the next call,
//! performs it, and reports its outcome, until the run completes or aborts.
use vstd::prelude::*;

use crate::authority::Authority;
use crate::plan::{
    call_for_step, plan, step_at, step_at_index, step_count, Call, GraduateParams, Step,
    STEPS_WITHOUT_LOCK, STEPS_WITH_LOCK,
};

verus! {

/// The first failing step of an aborted run, with the reason the pool
/// program gave.
#[derive(Clone, Debug, PartialEq, Eq)]
pub struct StepFailure<E> {
    pub step: Step,
    pub reason: E,
}

/// Where a run stands.
#[derive(Clone, Copy, Debug, PartialEq, Eq, Structural)]
pub enum Stage {
    Start,
    PoolInitialized,
    LowerTickArrayInitialized,
    TickArraysInitialized,
    PositionOpened,
    LiquidityAdded,
    Locked,
    /// The step failed; no later step was attempted.
    Aborted(Step),
}

/// The abstract state of a run.
pub struct GraduationState<E> {
    pub params: GraduateParams,
    pub authority: Authority,
    /// Whether the position is locked at the end.
    pub lock: bool,
    /// How many steps have succeeded.
    pub completed: nat,
    /// The failure that ended the run, if it failed.
    pub failure: Option<StepFailure<E>>,
}

impl<E> GraduationState<E> {
    /// The state before any call.
    pub open spec fn init(params: GraduateParams, authority: Authority, lock: bool) -> Self {
        GraduationState { params, authority, lock, completed: 0, failure: None }
    }

    /// The calls of the whole run.
    pub open spec fn plan(self) -> Seq<Call> {
        plan(self.params, self.authority, self.lock)
    }

    /// No more steps have succeeded than the run has, and a failed run
    /// failed at one of its steps.
    pub open spec fn wf(self) -> bool {
        &&& self.completed <= step_count(self.lock)
        &&& self.failure is Some ==> self.completed < step_count(self.lock)
    }

    /// A call is still to be made.
    pub open spec fn is_running(self) -> bool {
        self.failure is None && self.completed < step_count(self.lock)
    }

    /// The call to make next, if the run goes on.
    pub open spec fn next_call(self) -> Option<Call> {
        if self.is_running() {
            Some(self.plan()[self.completed as int])
        } else {
            None
        }
    }

    /// The state after the pending call reported `outcome`; a finished run
    /// ignores it.
    pub open spec fn record(self, outcome: Result<(), E>) -> Self {
        if !self.is_running() {
            self
        } else {
            match outcome {
                Ok(()) => GraduationState { completed: self.completed + 1, ..self },
                Err(reason) => GraduationState {
                    failure: Some(StepFailure { step: step_at(self.completed as int), reason }),
                    ..self
                },
            }
        }
    }

    /// How many calls have been made.
    pub open spec fn attempted(self) -> nat {
        if self.failure is Some {
            self.completed + 1
        } else {
            self.completed
        }
    }

    /// The result of a finished run: success, or the first failure.
    pub open spec fn result(self) -> Option<Result<(), StepFailure<E>>> {
        match self.failure {
            Some(f) => Some(Err(f)),
            None => if self.completed == step_count(self.lock) {
                Some(Ok(()))
            } else {
                None
            },
        }
    }

    /// Where the run stands, named after the last step that succeeded.
    pub open spec fn stage(self) -> Stage {
        match self.failure {
            Some(f) => Stage::Aborted(f.step),
            None => if self.completed == 0 {
                Stage::Start
            } else if self.completed == 1 {
                Stage::PoolInitialized
            } else if self.completed == 2 {
                Stage::LowerTickArrayInitialized
            } else if self.completed == 3 {
                Stage::TickArraysInitialized
            } else if self.completed == 4 {
                Stage::PositionOpened
            } else if self.completed == 5 {
                Stage::LiquidityAdded
            } else {
                Stage::Locked
            },
        }
    }
}

/// The state after the host reported `outcomes`, one per call, in order.
pub open spec fn run<E>(s: GraduationState<E>, outcomes: Seq<Result<(), E>>) -> GraduationState<E>
    decreases outcomes.len(),
{
    if outcomes.len() == 0 {
        s
    } else {
        run(s, outcomes.drop_last()).record(outcomes.last())
    }
}

/// The calls made while the host reported `outcomes`, in order.
pub open spec fn issued<E>(s: GraduationState<E>, outcomes: Seq<Result<(), E>>) -> Seq<Call>
    decreases outcomes.len(),
{
    if outcomes.len() == 0 {
        Seq::empty()
    } else {
        let before = run(s, outcomes.drop_last());
        match before.next_call() {
            Some(c) => issued(s, outcomes.drop_last()).push(c),
            None => issued(s, outcomes.drop_last()),
        }
    }
}

/// A graduation run in progress.
pub struct Graduation<E> {
    params: GraduateParams,
    authority: Authority,
    lock: bool,
    completed: usize,
    failure: Option<StepFailure<E>>,
}

impl<E> View for Graduation<E> {
    type V = GraduationState<E>;

    closed spec fn view(&self) -> GraduationState<E> {
        GraduationState {
            params: self.params,
            authority: self.authority,
            lock: self.lock,
            completed: self.completed as nat,
            failure: self.failure,
        }
    }
}

impl<E> Graduation<E> {
    /// A run that has made no call yet. With `lock`, the position is locked
    /// permanently as the last step.
    pub fn new(params: GraduateParams, authority: Authority, lock: bool) -> (r: Self)
        ensures
            r@ == GraduationState::<E>::init(params, authority, lock),
            r@.wf(),
    {
        Graduation { params, authority, lock, completed: 0, failure: None }
    }

    fn step_total(&self) -> (r: usize)
        ensures
            r == step_count(self.lock),
    {
        if self.lock {
            STEPS_WITH_LOCK
        } else {
            STEPS_WITHOUT_LOCK
        }
    }

    /// The call to make next, or `None` once the run has finished.
    pub fn next_call(&self) -> (r: Option<Call>)
        requires
            self@.wf(),
        ensures
            r == self@.next_call(),
    {
        if self.failure.is_none() && self.completed < self.step_total() {
            let step = step_at_index(self.completed);
            Some(call_for_step(&self.params, &self.authority, step))
        } else {
            None
        }
    }

    /// Reports the outcome of the call that `next_call` gave.
    pub fn record(&mut self, outcome: Result<(), E>)
        requires
            old(self)@.wf(),
            old(self)@.is_running(),
        ensures
            final(self)@ == old(self)@.record(outcome),
            final(self)@.wf(),
    {
        match outcome {
            Ok(()) => {
                self.completed = self.completed + 1;
            },
            Err(reason) => {
                let step = step_at_index(self.completed);
                self.failure = Some(StepFailure { step, reason });
            },
        }
    }

    /// Whether a call is still to be made.
    pub fn is_running(&self) -> (r: bool)
        requires
            self@.wf(),
        ensures
            r == self@.is_running(),
    {
        self.failure.is_none() && self.completed < self.step_total()
    }

    /// Where the run stands.
    pub fn stage(&self) -> (r: Stage)
        requires
            self@.wf(),
        ensures
            r == self@.stage(),
    {
        match &self.failure {
            Some(f) => Stage::Aborted(f.step),
            None => if self.completed == 0 {
                Stage::Start
            } else if self.completed == 1 {
                Stage::PoolInitialized
            } else if self.completed == 2 {
                Stage::LowerTickArrayInitialized
            } else if self.completed == 3 {
                Stage::TickArraysInitialized
            } else if self.completed == 4 {
                Stage::PositionOpened
            } else if self.completed == 5 {
                Stage::LiquidityAdded
            } else {
                Stage::Locked
            },
        }
    }

    /// The result of a finished run: `Ok` when every step succeeded, else the
    /// first failing step and its reason.
    pub fn finish(self) -> (r: Result<(), StepFailure<E>>)
        requires
            self@.wf(),
            !self@.is_running(),
        ensures
            self@.result() == Some(r),
    {
        match self.failure {
            Some(f) => Err(f),
            None => Ok(()),
        }
    }
}

} // verus!
