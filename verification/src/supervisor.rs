//! Supervised jobs: the signals a supervisor takes and the loop it runs.
//!
//! A supervisor runs its job, rests, and runs it again, until it is told
//! to leave. The caller runs the executions, keeps the time and reads the
//! inbox; this file decides what comes next.

use vstd::prelude::*;
use crate::job::{DispatchJobParams, DispatchView, Interval};

verus! {

/// What a supervisor's inbox accepts.
#[derive(Clone, Debug, PartialEq, Eq)]
pub enum SupervisorSignal {
    /// Run the job with these options from the next restart on.
    UpdateOptions(DispatchJobParams),
    /// Leave the loop before the next execution.
    Exit,
}

impl SupervisorSignal {
    /// The signal that hands a supervisor the options `opts`.
    pub fn update(opts: DispatchJobParams) -> (signal: SupervisorSignal)
        ensures
            signal == SupervisorSignal::UpdateOptions(opts),
    {
        SupervisorSignal::UpdateOptions(opts)
    }

    /// The signal that sends a supervisor away.
    pub fn exit() -> (signal: SupervisorSignal)
        ensures
            signal == SupervisorSignal::Exit,
    {
        SupervisorSignal::Exit
    }
}

/// The rest between two executions where the dispatch asks for none.
pub const DEFAULT_RESTART_SECS: u64 = 1;

/// Where a supervisor stands in its loop.
#[derive(Clone, Copy, Debug, PartialEq, Eq, Structural)]
pub enum SupervisorPhase {
    /// An execution of the job is in flight.
    Executing,
    /// The last execution has ended and the next one is not due yet.
    Resting,
    /// The supervisor has left its loop.
    Exited,
}

/// What the driver tells the supervisor.
#[derive(Debug)]
pub enum SupervisorInput {
    /// The execution in flight has ended.
    ExecutionEnded,
    /// The rest is over.
    RestElapsed,
    /// The inbox gave a signal during the rest.
    Signal(SupervisorSignal),
}

/// What the supervisor tells the driver to do next.
#[derive(Clone, Copy, Debug, PartialEq, Eq, Structural)]
pub enum SupervisorAction {
    /// Run the job once more, with the current options.
    Execute,
    /// Rest for this long, and listen to the inbox meanwhile.
    Rest(Interval),
    /// Leave the loop.
    Stop,
    /// The input came out of turn: go on as before.
    Ignore,
}

/// The model of a [`SupervisorInput`].
pub enum InputView {
    ExecutionEnded,
    RestElapsed,
    Update(DispatchView),
    Exit,
}

impl View for SupervisorInput {
    type V = InputView;

    open spec fn view(&self) -> InputView {
        match self {
            SupervisorInput::ExecutionEnded => InputView::ExecutionEnded,
            SupervisorInput::RestElapsed => InputView::RestElapsed,
            SupervisorInput::Signal(SupervisorSignal::UpdateOptions(d)) => InputView::Update(d@),
            SupervisorInput::Signal(SupervisorSignal::Exit) => InputView::Exit,
        }
    }
}

/// The supervisor of one job.
#[derive(Debug)]
pub struct Supervisor {
    current: DispatchJobParams,
    phase: SupervisorPhase,
}

/// The model of a [`Supervisor`].
#[verifier::ext_equal]
pub struct SupervisorView {
    pub current: DispatchView,
    pub phase: SupervisorPhase,
}

impl View for Supervisor {
    type V = SupervisorView;

    closed spec fn view(&self) -> SupervisorView {
        SupervisorView { current: self.current@, phase: self.phase }
    }
}

/// The rest that a dispatch asks for between two executions: its restart
/// interval, and one second where it names none or names zero.
pub open spec fn rest_interval(restart_interval: Option<Interval>) -> Interval {
    match restart_interval {
        Some(i) => if i.secs == 0 && i.nanos == 0 {
            Interval { secs: DEFAULT_RESTART_SECS, nanos: 0 }
        } else {
            i
        },
        None => Interval { secs: DEFAULT_RESTART_SECS, nanos: 0 },
    }
}

/// The supervisor after an input, and what the driver is to do next.
///
/// When the execution ends the supervisor rests. When the rest is over, or
/// new options arrive during it, the job runs again, with the options that
/// are then current. `Exit` during the rest ends the loop. An input that
/// does not fit the phase changes nothing.
pub open spec fn react_to(s: SupervisorView, input: InputView) -> (SupervisorView, SupervisorAction) {
    match (s.phase, input) {
        (SupervisorPhase::Executing, InputView::ExecutionEnded) => (
            SupervisorView { phase: SupervisorPhase::Resting, ..s },
            SupervisorAction::Rest(rest_interval(s.current.restart_interval)),
        ),
        (SupervisorPhase::Resting, InputView::RestElapsed) => (
            SupervisorView { phase: SupervisorPhase::Executing, ..s },
            SupervisorAction::Execute,
        ),
        (SupervisorPhase::Resting, InputView::Update(d)) => (
            SupervisorView { current: d, phase: SupervisorPhase::Executing },
            SupervisorAction::Execute,
        ),
        (SupervisorPhase::Resting, InputView::Exit) => (
            SupervisorView { phase: SupervisorPhase::Exited, ..s },
            SupervisorAction::Stop,
        ),
        _ => (s, SupervisorAction::Ignore),
    }
}

/// The supervisor after a sequence of inputs.
pub open spec fn supervised(s: SupervisorView, inputs: Seq<InputView>) -> SupervisorView
    decreases inputs.len(),
{
    if inputs.len() == 0 {
        s
    } else {
        react_to(supervised(s, inputs.drop_last()), inputs.last()).0
    }
}

/// How many executions the supervisor has asked for along a sequence of
/// inputs.
pub open spec fn executions_asked(s: SupervisorView, inputs: Seq<InputView>) -> nat
    decreases inputs.len(),
{
    if inputs.len() == 0 {
        0
    } else {
        let here: nat = if react_to(supervised(s, inputs.drop_last()), inputs.last()).1
            == SupervisorAction::Execute {
            1
        } else {
            0
        };
        executions_asked(s, inputs.drop_last()) + here
    }
}

/// How many executions have ended, by the supervisor's count, along a
/// sequence of inputs.
pub open spec fn executions_ended(s: SupervisorView, inputs: Seq<InputView>) -> nat
    decreases inputs.len(),
{
    if inputs.len() == 0 {
        0
    } else {
        let here: nat = if supervised(s, inputs.drop_last()).phase is Executing && inputs.last()
            is ExecutionEnded {
            1
        } else {
            0
        };
        executions_ended(s, inputs.drop_last()) + here
    }
}

/// A supervisor's executions come one after the other. Start with a
/// supervisor whose first execution is in flight. Whatever inputs follow,
/// all executions that it has asked for have ended, except one while it is
/// in the executing phase: it never asks for an execution while another is
/// in flight.
pub proof fn lemma_one_execution_at_a_time(s: SupervisorView, inputs: Seq<InputView>)
    requires
        s.phase is Executing,
    ensures
        1 + executions_asked(s, inputs) == executions_ended(s, inputs) + if supervised(
            s,
            inputs,
        ).phase is Executing {
            1nat
        } else {
            0nat
        },
    decreases inputs.len(),
{
    if inputs.len() > 0 {
        lemma_one_execution_at_a_time(s, inputs.drop_last());
    }
}

/// A supervisor that has left its loop stays out: no input brings it back
/// and it asks for nothing more.
pub proof fn lemma_exit_is_final(s: SupervisorView, input: InputView)
    requires
        s.phase is Exited,
    ensures
        react_to(s, input) == (s, SupervisorAction::Ignore),
{
}

impl Supervisor {
    /// The supervisor of a job whose first execution the driver starts now.
    pub fn new(params: DispatchJobParams) -> (s: Self)
        ensures
            s@ == (SupervisorView { current: params@, phase: SupervisorPhase::Executing }),
    {
        Supervisor { current: params, phase: SupervisorPhase::Executing }
    }

    /// The options that the next execution runs with.
    pub fn current(&self) -> (params: &DispatchJobParams)
        ensures
            params@ == self@.current,
    {
        &self.current
    }

    /// Where the supervisor stands.
    pub fn phase(&self) -> (phase: SupervisorPhase)
        ensures
            phase == self@.phase,
    {
        self.phase
    }

    /// The rest between two executions with the current options.
    pub fn rest(&self) -> (interval: Interval)
        ensures
            interval == rest_interval(self@.current.restart_interval),
    {
        match self.current.restart_interval {
            Some(i) => if i.secs == 0 && i.nanos == 0 {
                Interval { secs: DEFAULT_RESTART_SECS, nanos: 0 }
            } else {
                i
            },
            None => Interval { secs: DEFAULT_RESTART_SECS, nanos: 0 },
        }
    }

    /// Takes an input from the driver and says what to do next.
    pub fn step(&mut self, input: SupervisorInput) -> (action: SupervisorAction)
        ensures
            (final(self)@, action) == react_to(old(self)@, input@),
    {
        match self.phase {
            SupervisorPhase::Executing => match input {
                SupervisorInput::ExecutionEnded => {
                    self.phase = SupervisorPhase::Resting;
                    SupervisorAction::Rest(self.rest())
                },
                _ => SupervisorAction::Ignore,
            },
            SupervisorPhase::Resting => match input {
                SupervisorInput::RestElapsed => {
                    self.phase = SupervisorPhase::Executing;
                    SupervisorAction::Execute
                },
                SupervisorInput::Signal(SupervisorSignal::UpdateOptions(d)) => {
                    self.current = d;
                    self.phase = SupervisorPhase::Executing;
                    SupervisorAction::Execute
                },
                SupervisorInput::Signal(SupervisorSignal::Exit) => {
                    self.phase = SupervisorPhase::Exited;
                    SupervisorAction::Stop
                },
                SupervisorInput::ExecutionEnded => SupervisorAction::Ignore,
            },
            SupervisorPhase::Exited => SupervisorAction::Ignore,
        }
    }
}

} // verus!
