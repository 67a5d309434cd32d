//! The kernel's verbs: what the agent does with a dispatch, up to the
//! points where it has to wait.
//!
//! Each function here runs under the kernel's lock and returns at once. It
//! changes the kernel's state, and hands back what the caller needs to go
//! on: the execution to run, the handle to cancel, the report to deliver.

use vstd::prelude::*;
use tokio::sync::mpsc::{
    channel, unbounded_channel, Receiver, Sender, UnboundedReceiver, UnboundedSender,
};
use uuid::Uuid;
use crate::error::{error_message, ErrorView, ReactError};
use crate::execution::{
    after_enter, refusal, turned_away, Execution, ExecutionPhase, ExecutionView,
};
use crate::job::{DispatchJobParams, DispatchView, Timestamp, UploadFile};
use crate::outside::draw_id;
use crate::react::{bound, React, ReactView, SupervisorUpdate};
use crate::registry::{has_run, kill_list, KillSignal, KillView, RUN_ID_LENGTH};
use crate::reply::{failure_reply, success_reply, Reply};
use crate::report::{schedule_report, Origin, UpdateJobParams};
use crate::scheduler::Scheduler;
use crate::supervisor::{Supervisor, SupervisorPhase, SupervisorSignal, SupervisorView};
use crate::types::{
    mode_of_action, JobAction, RunMode, RunStatus, RuntimeAction, ScheduleStatus, ScheduleType,
};

verus! {

/// How many kill signals may wait in a run's channel.
pub const KILL_CHANNEL_CAPACITY: usize = 1;

/// An execution that the kernel has let in, for the caller to run.
#[derive(Debug)]
pub struct Running {
    /// The execution, listed and not yet begun.
    pub execution: Execution,
    /// Where the run hears that it is to stop.
    pub kill_signal_rx: Receiver<()>,
    /// Whether the coordinator waits for the result.
    pub wait: bool,
}

/// A timer that has been set.
#[derive(Debug)]
pub struct TimerStarted {
    /// The handle that the job was bound to before, for the caller to cancel.
    pub replaced: Option<Uuid>,
    /// The report to deliver.
    pub report: UpdateJobParams,
}

/// A timer that has been cleared.
#[derive(Debug)]
pub struct TimerStopped {
    /// The handle that the job was bound to, for the caller to cancel.
    pub cancel: Option<Uuid>,
    /// The report to deliver.
    pub report: UpdateJobParams,
}

/// The loop of a supervisor that has been installed, for the caller to drive.
#[derive(Debug)]
pub struct SupervisorDriver {
    /// The supervisor, with its first execution due.
    pub supervisor: Supervisor,
    /// Where the supervisor hears of new options and of its end.
    pub inbox: UnboundedReceiver<SupervisorSignal>,
}

/// What starting to supervise a job gave.
#[derive(Debug)]
pub struct Supervising {
    /// The report to deliver.
    pub report: UpdateJobParams,
    /// The loop to drive; `None` where the job had a supervisor already,
    /// which has been offered the new options.
    pub driver: Option<SupervisorDriver>,
    /// Whether the supervisor that was there took the new options; `None`
    /// where there was none.
    pub forwarded: Option<bool>,
}

/// What stopping to supervise a job gave.
#[derive(Debug)]
pub struct Unsupervised {
    /// The kill signals that were offered to the daemon's live runs.
    pub signals: Vec<KillSignal>,
    /// Whether the job had a supervisor.
    pub stopped: bool,
    /// Whether the supervisor took the signal to leave; `None` where there
    /// was none.
    pub exit_taken: Option<bool>,
    /// The report to deliver.
    pub report: UpdateJobParams,
}

/// What a dispatch gave.
#[derive(Debug)]
pub enum Dispatched {
    /// `Exec`: an execution to run.
    Run(Running),
    /// `Kill`: the kill signals that were offered to the live one-shot runs.
    Killed(Vec<KillSignal>),
    /// `StartTimer`: the cron expression to hand to the cron engine.
    Timer { timer_expr: String },
    /// `StopTimer`.
    TimerStopped(TimerStopped),
    /// `StartSupervising`.
    Supervising(Supervising),
    /// `StopSupervising`.
    Unsupervised(Unsupervised),
    /// `RestartSupervising`.
    Resupervised(Unsupervised, Supervising),
}

/// What a runtime request gave.
#[derive(Debug)]
pub struct RuntimeEffect {
    /// The handle of the timer that was cleared, for the caller to cancel.
    pub cancel: Option<Uuid>,
    /// Whether a supervisor was stopped.
    pub stopped: bool,
    /// The kill signals that were offered.
    pub signals: Vec<KillSignal>,
}

/// What a runtime request names.
#[derive(Clone, Debug, PartialEq, Eq)]
pub struct RuntimeActionParams {
    pub action: RuntimeAction,
    pub eid: String,
}

/// A request of the coordinator that the kernel carries out.
#[derive(Debug)]
pub enum MsgReqKind {
    DispatchJobRequest(DispatchJobParams),
    RuntimeActionRequest(RuntimeActionParams),
}

/// What a request gave.
#[derive(Debug)]
pub enum Handled {
    Dispatch(Dispatched),
    Runtime(RuntimeEffect),
}

/// The kernel's state after an execution of `d` was let in and listed as
/// `run_id` with the channel `kill`.
pub open spec fn entered(
    before: ReactView,
    d: DispatchView,
    run_id: Seq<char>,
    kill: Sender<()>,
) -> ReactView {
    ReactView { registry: after_enter(before.registry, d, KillView { run_id, kill }), ..before }
}

/// The kernel's state after `inbox` became the inbox of the supervisor of `eid`.
pub open spec fn supervised_by(
    before: ReactView,
    eid: Seq<char>,
    inbox: UnboundedSender<SupervisorSignal>,
) -> ReactView {
    ReactView { supervisors: before.supervisors.insert(eid, inbox), ..before }
}

/// The kernel's state without a supervisor of `eid`.
pub open spec fn unsupervised(before: ReactView, eid: Seq<char>) -> ReactView {
    ReactView { supervisors: before.supervisors.remove(eid), ..before }
}

/// Where the kernel's reports come from.
pub open spec fn origin(react: ReactView) -> Origin {
    Origin { namespace: react.namespace, ip: react.local_ip }
}

/// What `exec` owes: a dispatch is let in only where nothing refuses it;
/// then the execution is listed under an id that no live run of the job
/// and mode had, not yet begun, and the state holds the run; otherwise the
/// state is as before and the error says why.
pub open spec fn exec_post(
    before: ReactView,
    d: DispatchView,
    out: Result<Running, ReactError>,
    after: ReactView,
) -> bool {
    match out {
        Ok(run) => {
            &&& refusal(before.registry, d) is None
            &&& run.execution@ == (ExecutionView {
                params: d,
                instance_id: d.instance_id.unwrap(),
                mode: mode_of_action(d.action).unwrap(),
                listed_as: run.execution@.listed_as,
                phase: ExecutionPhase::Listed,
            })
            &&& !has_run(
                kill_list(before.registry, d.base_job.eid, mode_of_action(d.action).unwrap()),
                run.execution@.listed_as,
            )
            &&& exists|kill: Sender<()>|
                after == #[trigger] entered(before, d, run.execution@.listed_as, kill)
        },
        Err(e) => turned_away(before.registry, d, e@) && after == before,
    }
}

/// What `stop_timer` owes: without an instance id nothing happens; else the
/// job loses its schedule, whose handle is handed back, and the report says
/// that the timer is unscheduled and names no next time.
pub open spec fn stop_timer_post(
    before: ReactView,
    d: DispatchView,
    out: Result<TimerStopped, ReactError>,
    after: ReactView,
) -> bool {
    match out {
        Ok(stopped) => {
            &&& d.instance_id is Some
            &&& stopped.cancel == bound(before.schedules, d.base_job.eid)
            &&& stopped.report@ == schedule_report(
                origin(before),
                d,
                d.instance_id.unwrap(),
                ScheduleType::Timer,
                ScheduleStatus::Unscheduled,
                None,
                None,
            )
            &&& after == ReactView { schedules: before.schedules.remove(d.base_job.eid), ..before }
        },
        Err(e) => d.instance_id is None && e@ == ErrorView::MissingInstanceId && after == before,
    }
}

/// What `start_supervising` owes: without an instance id nothing happens;
/// else the report says that the job is supervised, and a supervisor is
/// installed exactly where the job had none.
pub open spec fn start_supervising_post(
    before: ReactView,
    d: DispatchView,
    out: Result<Supervising, ReactError>,
    after: ReactView,
) -> bool {
    match out {
        Ok(started) => {
            &&& d.instance_id is Some
            &&& started.report@ == schedule_report(
                origin(before),
                d,
                d.instance_id.unwrap(),
                ScheduleType::Daemon,
                ScheduleStatus::Supervising,
                None,
                None,
            )
            &&& started.driver is Some <==> !before.supervisors.contains_key(d.base_job.eid)
            &&& started.forwarded is Some <==> started.driver is None
            &&& match started.driver {
                Some(driver) => {
                    &&& driver.supervisor@ == (SupervisorView {
                        current: d,
                        phase: SupervisorPhase::Executing,
                    })
                    &&& exists|inbox: UnboundedSender<SupervisorSignal>|
                        after == #[trigger] supervised_by(before, d.base_job.eid, inbox)
                },
                None => after == before,
            }
        },
        Err(e) => d.instance_id is None && e@ == ErrorView::MissingInstanceId && after == before,
    }
}

/// What `stop_supervising` owes: every live run of the daemon is offered a
/// kill signal, the job loses its supervisor, and the report says so. The
/// dispatch must name its instance for the report; the supervisor goes
/// either way.
pub open spec fn stop_supervising_post(
    before: ReactView,
    d: DispatchView,
    out: Result<Unsupervised, ReactError>,
    after: ReactView,
) -> bool {
    &&& after == unsupervised(before, d.base_job.eid)
    &&& match out {
        Ok(stopped) => {
            &&& d.instance_id is Some
            &&& stopped.stopped == before.supervisors.contains_key(d.base_job.eid)
            &&& stopped.exit_taken is Some <==> stopped.stopped
            &&& stopped.signals@.len() == kill_list(
                before.registry,
                d.base_job.eid,
                RunMode::Daemon,
            ).len()
            &&& forall|i: int|
                0 <= i < stopped.signals@.len() ==> (#[trigger] stopped.signals@[i]).run_id@
                    == kill_list(before.registry, d.base_job.eid, RunMode::Daemon)[i].run_id
            &&& stopped.report@ == schedule_report(
                origin(before),
                d,
                d.instance_id.unwrap(),
                ScheduleType::Daemon,
                ScheduleStatus::Unsupervised,
                None,
                None,
            )
        },
        Err(e) => d.instance_id is None && e@ == ErrorView::MissingInstanceId,
    }
}

/// What `kill` owes: one signal for each live one-shot run of the job,
/// oldest first.
pub open spec fn kill_post(before: ReactView, d: DispatchView, signals: Vec<KillSignal>) -> bool {
    &&& signals@.len() == kill_list(before.registry, d.base_job.eid, RunMode::Once).len()
    &&& forall|i: int|
        0 <= i < signals@.len() ==> (#[trigger] signals@[i]).run_id@ == kill_list(
            before.registry,
            d.base_job.eid,
            RunMode::Once,
        )[i].run_id
}

/// What `runtime_action` owes for each action.
pub open spec fn runtime_post(
    before: ReactView,
    action: RuntimeAction,
    eid: Seq<char>,
    effect: RuntimeEffect,
    after: ReactView,
) -> bool {
    match action {
        RuntimeAction::StopTimer => {
            &&& effect.cancel == bound(before.schedules, eid)
            &&& !effect.stopped
            &&& effect.signals@.len() == 0
            &&& after == ReactView { schedules: before.schedules.remove(eid), ..before }
        },
        RuntimeAction::StopSupervising => {
            &&& effect.cancel is None
            &&& effect.stopped == before.supervisors.contains_key(eid)
            &&& effect.signals@.len() == 0
            &&& after == unsupervised(before, eid)
        },
        RuntimeAction::Kill => {
            &&& effect.cancel is None
            &&& !effect.stopped
            &&& effect.signals@.len() == kill_list(before.registry, eid, RunMode::Once).len()
            &&& forall|i: int|
                0 <= i < effect.signals@.len() ==> (#[trigger] effect.signals@[i]).run_id@
                    == kill_list(before.registry, eid, RunMode::Once)[i].run_id
            &&& after == before
        },
    }
}

/// The cron expression of a dispatch; the empty text where it names none.
pub open spec fn timer_expr_of(d: DispatchView) -> Seq<char> {
    match d.timer_expr {
        Some(expr) => expr,
        None => Seq::empty(),
    }
}

/// What `dispatch_job` owes for each action.
pub open spec fn dispatch_post(
    before: ReactView,
    d: DispatchView,
    out: Result<Dispatched, ReactError>,
    after: ReactView,
) -> bool {
    match d.action {
        JobAction::Exec => match out {
            Ok(Dispatched::Run(run)) => run.wait == d.is_sync && exec_post(
                before,
                d,
                Ok(run),
                after,
            ),
            Err(e) => exec_post(before, d, Err(e), after),
            _ => false,
        },
        JobAction::Kill => out matches Ok(Dispatched::Killed(signals)) && kill_post(
            before,
            d,
            signals,
        ) && after == before,
        JobAction::StartTimer => after == before && match out {
            Ok(Dispatched::Timer { timer_expr }) => d.instance_id is Some && timer_expr@
                == timer_expr_of(d),
            Err(e) => d.instance_id is None && e@ == ErrorView::MissingInstanceId,
            _ => false,
        },
        JobAction::StopTimer => match out {
            Ok(Dispatched::TimerStopped(stopped)) => stop_timer_post(before, d, Ok(stopped), after),
            Err(e) => stop_timer_post(before, d, Err(e), after),
            _ => false,
        },
        JobAction::StartSupervising => match out {
            Ok(Dispatched::Supervising(started)) => start_supervising_post(
                before,
                d,
                Ok(started),
                after,
            ),
            Err(e) => start_supervising_post(before, d, Err(e), after),
            _ => false,
        },
        JobAction::StopSupervising => match out {
            Ok(Dispatched::Unsupervised(stopped)) => stop_supervising_post(
                before,
                d,
                Ok(stopped),
                after,
            ),
            Err(e) => stop_supervising_post(before, d, Err(e), after),
            _ => false,
        },
        JobAction::RestartSupervising => match out {
            Ok(Dispatched::Resupervised(stopped, started)) => {
                &&& stop_supervising_post(
                    before,
                    d,
                    Ok(stopped),
                    unsupervised(before, d.base_job.eid),
                )
                &&& start_supervising_post(
                    unsupervised(before, d.base_job.eid),
                    d,
                    Ok(started),
                    after,
                )
                &&& started.driver is Some
            },
            Err(e) => stop_supervising_post(before, d, Err(e), after),
            _ => false,
        },
    }
}

impl<T> Scheduler<T> {
    /// The uploaded file that has to be staged before the dispatch is
    /// carried out: the upload of a dispatch that runs the job once or sets
    /// its timer.
    pub fn upload_to_stage(dispatch_params: &DispatchJobParams) -> (upload: Option<&UploadFile>)
        ensures
            match upload {
                Some(f) => (dispatch_params.action == JobAction::Exec || dispatch_params.action
                    == JobAction::StartTimer) && dispatch_params.base_job.upload_file == Some(*f),
                None => !(dispatch_params.action == JobAction::Exec || dispatch_params.action
                    == JobAction::StartTimer) || dispatch_params.base_job.upload_file is None,
            },
    {
        match dispatch_params.action {
            JobAction::Exec | JobAction::StartTimer => match &dispatch_params.base_job.upload_file {
                Some(f) => Some(f),
                None => None,
            },
            _ => None,
        }
    }

    /// Lets an execution of the dispatch in, behind a kill channel of its
    /// own, or says why it cannot run.
    pub fn exec(dispatch_params: DispatchJobParams, react: &mut React) -> (out: Result<
        Running,
        ReactError,
    >)
        requires
            old(react).wf(),
        ensures
            final(react).wf(),
            exec_post(old(react)@, dispatch_params@, out, final(react)@),
            out matches Ok(run) ==> run.wait == dispatch_params.is_sync,
    {
        let (kill_signal_tx, kill_signal_rx) = channel::<()>(KILL_CHANNEL_CAPACITY);
        let wait = dispatch_params.is_sync;
        let ghost kill = kill_signal_tx;
        match Execution::enter(react, dispatch_params, kill_signal_tx) {
            Ok(execution) => {
                assert(react@ == entered(
                    old(react)@,
                    dispatch_params@,
                    execution@.listed_as,
                    kill,
                ));
                Ok(Running { execution, kill_signal_rx, wait })
            },
            Err(e) => Err(e),
        }
    }

    /// Lets one execution of a supervised job in. The caller waits for it.
    pub fn wait_exec(dispatch_params: DispatchJobParams, react: &mut React) -> (out: Result<
        Running,
        ReactError,
    >)
        requires
            old(react).wf(),
        ensures
            final(react).wf(),
            exec_post(old(react)@, dispatch_params@, out, final(react)@),
            out matches Ok(run) ==> run.wait,
    {
        match Scheduler::<T>::exec(dispatch_params, react) {
            Ok(run) => Ok(
                Running { execution: run.execution, kill_signal_rx: run.kill_signal_rx, wait: true },
            ),
            Err(e) => Err(e),
        }
    }

    /// A timer has fired: lets an execution of the timer's dispatch in,
    /// under a run id drawn for this fire, or skips the fire where the
    /// kernel refuses it.
    pub fn timer_fired(template: &DispatchJobParams, react: &mut React) -> (out: Option<Running>)
        requires
            old(react).wf(),
        ensures
            final(react).wf(),
            match out {
                Some(run) => {
                    &&& run.execution@.params.run_id.len() == RUN_ID_LENGTH
                    &&& exec_post(
                        old(react)@,
                        DispatchView { run_id: run.execution@.params.run_id, ..template@ },
                        Ok(run),
                        final(react)@,
                    )
                },
                None => {
                    &&& final(react)@ == old(react)@
                    &&& exists|e: ErrorView| #[trigger] turned_away(old(react)@.registry, template@, e)
                },
            },
    {
        let mut dispatch_params = template.copy();
        dispatch_params.run_id = draw_id(RUN_ID_LENGTH);
        assert(dispatch_params@ =~= DispatchView { run_id: dispatch_params@.run_id, ..template@ });
        match Scheduler::<T>::exec(dispatch_params, react) {
            Ok(run) => Some(run),
            Err(e) => {
                assert(turned_away(old(react)@.registry, template@, e@));
                None
            },
        }
    }

    /// Offers a kill signal to every live one-shot run of the job.
    pub fn kill(dispatch_params: &DispatchJobParams, react: &React) -> (signals: Vec<KillSignal>)
        requires
            react.wf(),
        ensures
            kill_post(react@, dispatch_params@, signals),
    {
        match react.kill_job(dispatch_params.base_job.eid.as_str(), ScheduleType::Once) {
            Ok(signals) => signals,
            Err(_) => Vec::new(),
        }
    }

    /// The cron expression to set the job's timer with; the empty text
    /// where the dispatch names none. A dispatch without an instance id sets
    /// no timer.
    pub fn timer_expr(dispatch_params: &DispatchJobParams) -> (out: Result<String, ReactError>)
        ensures
            match out {
                Ok(expr) => dispatch_params@.instance_id is Some && expr@ == timer_expr_of(
                    dispatch_params@,
                ),
                Err(e) => dispatch_params@.instance_id is None && e@
                    == ErrorView::MissingInstanceId,
            },
    {
        if dispatch_params.instance_id.is_none() {
            return Err(ReactError::MissingInstanceId);
        }
        match &dispatch_params.timer_expr {
            Some(expr) => Ok(expr.clone()),
            None => Ok(String::new()),
        }
    }

    /// Binds the job to the schedule that the cron engine has taken under
    /// `handle`, and builds the report that the timer is set, with the time
    /// of its next fire.
    pub fn start_timer(
        dispatch_params: &DispatchJobParams,
        react: &mut React,
        handle: Uuid,
        next_time: Option<Timestamp>,
    ) -> (out: Result<TimerStarted, ReactError>)
        requires
            old(react).wf(),
        ensures
            final(react).wf(),
            match out {
                Ok(started) => {
                    &&& dispatch_params@.instance_id is Some
                    &&& started.replaced == bound(
                        old(react)@.schedules,
                        dispatch_params@.base_job.eid,
                    )
                    &&& started.report@ == schedule_report(
                        origin(old(react)@),
                        dispatch_params@,
                        dispatch_params@.instance_id.unwrap(),
                        ScheduleType::Timer,
                        ScheduleStatus::Scheduling,
                        Some(RunStatus::Prepare),
                        next_time,
                    )
                    &&& final(react)@ == (ReactView {
                        schedules: old(react)@.schedules.insert(
                            dispatch_params@.base_job.eid,
                            handle,
                        ),
                        ..old(react)@
                    })
                },
                Err(e) => {
                    &&& dispatch_params@.instance_id is None
                    &&& e@ == ErrorView::MissingInstanceId
                    &&& final(react)@ == old(react)@
                },
            },
    {
        let report = match UpdateJobParams::schedule(
            react.namespace().as_str(),
            react.local_ip().as_str(),
            dispatch_params,
            ScheduleType::Timer,
            ScheduleStatus::Scheduling,
            Some(RunStatus::Prepare),
            next_time,
        ) {
            Ok(report) => report,
            Err(e) => {
                return Err(e);
            },
        };
        let replaced = react.add_job_schedule(dispatch_params.base_job.eid.clone(), handle);
        Ok(TimerStarted { replaced, report })
    }

    /// Unbinds the job from its schedule and builds the report that the
    /// timer is cleared. Runs that the timer has started go on.
    pub fn stop_timer(dispatch_params: &DispatchJobParams, react: &mut React) -> (out: Result<
        TimerStopped,
        ReactError,
    >)
        requires
            old(react).wf(),
        ensures
            final(react).wf(),
            stop_timer_post(old(react)@, dispatch_params@, out, final(react)@),
    {
        let report = match UpdateJobParams::schedule(
            react.namespace().as_str(),
            react.local_ip().as_str(),
            dispatch_params,
            ScheduleType::Timer,
            ScheduleStatus::Unscheduled,
            None,
            None,
        ) {
            Ok(report) => report,
            Err(e) => {
                return Err(e);
            },
        };
        let cancel = react.remove_job_schedule(dispatch_params.base_job.eid.as_str());
        Ok(TimerStopped { cancel, report })
    }

    /// Starts to supervise the job, or hands the new options to the
    /// supervisor that it has.
    pub fn start_supervising(dispatch_params: DispatchJobParams, react: &mut React) -> (out: Result<
        Supervising,
        ReactError,
    >)
        requires
            old(react).wf(),
        ensures
            final(react).wf(),
            start_supervising_post(old(react)@, dispatch_params@, out, final(react)@),
    {
        let report = match UpdateJobParams::schedule(
            react.namespace().as_str(),
            react.local_ip().as_str(),
            &dispatch_params,
            ScheduleType::Daemon,
            ScheduleStatus::Supervising,
            None,
            None,
        ) {
            Ok(report) => report,
            Err(e) => {
                return Err(e);
            },
        };
        let (tx, rx) = unbounded_channel::<SupervisorSignal>();
        let ghost inbox = tx;
        let eid = dispatch_params.base_job.eid.clone();
        match react.update_supervising(eid, dispatch_params.copy(), tx) {
            SupervisorUpdate::Installed => {
                assert(react@ == supervised_by(old(react)@, dispatch_params@.base_job.eid, inbox));
                let driver = SupervisorDriver {
                    supervisor: Supervisor::new(dispatch_params),
                    inbox: rx,
                };
                Ok(Supervising { report, driver: Some(driver), forwarded: None })
            },
            SupervisorUpdate::Forwarded { taken } => Ok(
                Supervising { report, driver: None, forwarded: Some(taken) },
            ),
        }
    }

    /// Stops supervising the job: signals the daemon's live runs, sends the
    /// supervisor away and builds the report.
    pub fn stop_supervising(dispatch_params: &DispatchJobParams, react: &mut React) -> (out: Result<
        Unsupervised,
        ReactError,
    >)
        requires
            old(react).wf(),
        ensures
            final(react).wf(),
            stop_supervising_post(old(react)@, dispatch_params@, out, final(react)@),
    {
        let signals = match react.kill_job(
            dispatch_params.base_job.eid.as_str(),
            ScheduleType::Daemon,
        ) {
            Ok(signals) => signals,
            Err(_) => Vec::new(),
        };
        let exit_taken = react.stop_supervising(&dispatch_params.base_job.eid);
        let stopped = exit_taken.is_some();
        match UpdateJobParams::schedule(
            react.namespace().as_str(),
            react.local_ip().as_str(),
            dispatch_params,
            ScheduleType::Daemon,
            ScheduleStatus::Unsupervised,
            None,
            None,
        ) {
            Ok(report) => Ok(Unsupervised { signals, stopped, exit_taken, report }),
            Err(e) => Err(e),
        }
    }

    /// Stops supervising the job and starts again with the new options.
    pub fn restart_supervising(dispatch_params: DispatchJobParams, react: &mut React) -> (out: Result<
        (Unsupervised, Supervising),
        ReactError,
    >)
        requires
            old(react).wf(),
        ensures
            final(react).wf(),
            match out {
                Ok((stopped, started)) => {
                    &&& stop_supervising_post(
                        old(react)@,
                        dispatch_params@,
                        Ok(stopped),
                        unsupervised(old(react)@, dispatch_params@.base_job.eid),
                    )
                    &&& start_supervising_post(
                        unsupervised(old(react)@, dispatch_params@.base_job.eid),
                        dispatch_params@,
                        Ok(started),
                        final(react)@,
                    )
                    &&& started.driver is Some
                },
                Err(e) => stop_supervising_post(
                    old(react)@,
                    dispatch_params@,
                    Err(e),
                    final(react)@,
                ),
            },
    {
        let stopped = match Scheduler::<T>::stop_supervising(&dispatch_params, react) {
            Ok(stopped) => stopped,
            Err(e) => {
                return Err(e);
            },
        };
        match Scheduler::<T>::start_supervising(dispatch_params, react) {
            Ok(started) => Ok((stopped, started)),
            Err(e) => Err(e),
        }
    }

    /// Carries out a dispatch as far as it goes without waiting.
    pub fn dispatch_job(dispatch_params: DispatchJobParams, react: &mut React) -> (out: Result<
        Dispatched,
        ReactError,
    >)
        requires
            old(react).wf(),
        ensures
            final(react).wf(),
            dispatch_post(old(react)@, dispatch_params@, out, final(react)@),
    {
        match dispatch_params.action {
            JobAction::StartTimer => match Scheduler::<T>::timer_expr(&dispatch_params) {
                Ok(timer_expr) => Ok(Dispatched::Timer { timer_expr }),
                Err(e) => Err(e),
            },
            JobAction::StopTimer => match Scheduler::<T>::stop_timer(&dispatch_params, react) {
                Ok(stopped) => Ok(Dispatched::TimerStopped(stopped)),
                Err(e) => Err(e),
            },
            JobAction::StartSupervising => match Scheduler::<T>::start_supervising(
                dispatch_params,
                react,
            ) {
                Ok(started) => Ok(Dispatched::Supervising(started)),
                Err(e) => Err(e),
            },
            JobAction::RestartSupervising => match Scheduler::<T>::restart_supervising(
                dispatch_params,
                react,
            ) {
                Ok((stopped, started)) => Ok(Dispatched::Resupervised(stopped, started)),
                Err(e) => Err(e),
            },
            JobAction::StopSupervising => match Scheduler::<T>::stop_supervising(
                &dispatch_params,
                react,
            ) {
                Ok(stopped) => Ok(Dispatched::Unsupervised(stopped)),
                Err(e) => Err(e),
            },
            JobAction::Exec => match Scheduler::<T>::exec(dispatch_params, react) {
                Ok(run) => Ok(Dispatched::Run(run)),
                Err(e) => Err(e),
            },
            JobAction::Kill => Ok(Dispatched::Killed(Scheduler::<T>::kill(&dispatch_params, react))),
        }
    }

    /// Carries out a request of the coordinator as far as it goes without
    /// waiting: a dispatch as `dispatch_job` does, a runtime request as
    /// `runtime_action` does, which cannot fail.
    pub fn handle(msg: MsgReqKind, react: &mut React) -> (out: Result<Handled, ReactError>)
        requires
            old(react).wf(),
        ensures
            final(react).wf(),
            match msg {
                MsgReqKind::DispatchJobRequest(d) => match out {
                    Ok(Handled::Dispatch(done)) => dispatch_post(
                        old(react)@,
                        d@,
                        Ok(done),
                        final(react)@,
                    ),
                    Err(e) => dispatch_post(old(react)@, d@, Err(e), final(react)@),
                    _ => false,
                },
                MsgReqKind::RuntimeActionRequest(r) => out matches Ok(Handled::Runtime(effect))
                    && runtime_post(old(react)@, r.action, r.eid@, effect, final(react)@),
            },
    {
        match msg {
            MsgReqKind::DispatchJobRequest(d) => match Scheduler::<T>::dispatch_job(d, react) {
                Ok(done) => Ok(Handled::Dispatch(done)),
                Err(e) => Err(e),
            },
            MsgReqKind::RuntimeActionRequest(r) => Ok(
                Handled::Runtime(Scheduler::<T>::runtime_action(r.action, &r.eid, react)),
            ),
        }
    }

    /// The answer that is due as soon as a request has been handled. None
    /// is due yet where the coordinator waits for an execution: that answer
    /// is made of the execution's outcome.
    pub fn reply(handled: &Result<Handled, ReactError>) -> (reply: Option<Reply>)
        ensures
            match *handled {
                Ok(Handled::Dispatch(Dispatched::Run(run))) => if run.wait {
                    reply is None
                } else {
                    reply matches Some(r) && r@ == success_reply(None)
                },
                Ok(_) => reply matches Some(r) && r@ == success_reply(None),
                Err(e) => reply matches Some(r) && r@ == failure_reply(error_message(e@)),
            },
    {
        match handled {
            Ok(Handled::Dispatch(Dispatched::Run(run))) => if run.wait {
                None
            } else {
                Some(Reply::success(None))
            },
            Ok(_) => Some(Reply::success(None)),
            Err(e) => Some(Reply::refused(e)),
        }
    }

    /// Carries out a runtime request for the job `eid`: clears its timer,
    /// sends its supervisor away, or signals its live one-shot runs.
    pub fn runtime_action(action: RuntimeAction, eid: &String, react: &mut React) -> (effect:
        RuntimeEffect)
        requires
            old(react).wf(),
        ensures
            final(react).wf(),
            runtime_post(old(react)@, action, eid@, effect, final(react)@),
    {
        match action {
            RuntimeAction::StopTimer => {
                let cancel = react.remove_job_schedule(eid.as_str());
                RuntimeEffect { cancel, stopped: false, signals: Vec::new() }
            },
            RuntimeAction::StopSupervising => {
                let stopped = react.stop_supervising(eid).is_some();
                RuntimeEffect { cancel: None, stopped, signals: Vec::new() }
            },
            RuntimeAction::Kill => {
                let signals = match react.kill_job(eid.as_str(), ScheduleType::Once) {
                    Ok(signals) => signals,
                    Err(_) => Vec::new(),
                };
                RuntimeEffect { cancel: None, stopped: false, signals }
            },
        }
    }
}

} // verus!
