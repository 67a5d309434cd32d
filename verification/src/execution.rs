//! One execution of a job, from its entry to the release of its place in
//! the registry.
//!
//! The caller runs the executor and delivers the reports; this file decides
//! what is reported and when, and keeps the registry straight.

use vstd::prelude::*;
use tokio::sync::mpsc::Sender;
use crate::error::{ErrorView, ReactError};
use crate::job::{untimed_job, BaseJob, BaseJobView, DispatchJobParams, DispatchView, Timestamp};
use crate::react::{React, ReactView};
use crate::registry::{
    after_can_execute, after_end, after_register, context_of, denial, has_run, kill_list,
    after_give_back, all_taken, first_unused_at, lemma_without_absent_run, running, without_run,
    KillView, RegistryView, RUN_ID_LENGTH,
};
use crate::text::texts;
use crate::report::{
    outcome_view, running_report, stop_report, ExecOutput, ExecOutputView, Origin, ReportView,
    UpdateJobParams,
};
use crate::types::{mode_of_action, schedule_of_mode, JobAction, RunMode, RunStatus};

verus! {

/// How far an execution has come.
#[derive(Clone, Copy, Debug, PartialEq, Eq, Structural)]
pub enum ExecutionPhase {
    /// Listed in the registry; nothing reported yet.
    Listed,
    /// The opening report is out and the executor is at work.
    Running { start_time: Timestamp },
    /// The closing report is out.
    Finished,
}

/// One execution of a job.
#[derive(Debug)]
pub struct Execution {
    params: DispatchJobParams,
    instance_id: String,
    mode: RunMode,
    listed_as: String,
    phase: ExecutionPhase,
}

/// The model of an [`Execution`].
#[verifier::ext_equal]
pub struct ExecutionView {
    pub params: DispatchView,
    pub instance_id: Seq<char>,
    pub mode: RunMode,
    pub listed_as: Seq<char>,
    pub phase: ExecutionPhase,
}

impl View for Execution {
    type V = ExecutionView;

    closed spec fn view(&self) -> ExecutionView {
        ExecutionView {
            params: self.params@,
            instance_id: self.instance_id@,
            mode: self.mode,
            listed_as: self.listed_as@,
            phase: self.phase,
        }
    }
}

/// Why a dispatch cannot start an execution; `None` where it can. Its
/// action must start a run; a run on a timer and a run made once must fit
/// under the job's cap, while a daemon's runs are not counted, so that no
/// cap holds them back; and the dispatch must name its instance. The first
/// of these that fails is the reason.
pub open spec fn refusal(reg: RegistryView, d: DispatchView) -> Option<ErrorView> {
    let denied = match mode_of_action(d.action) {
        None => Some(ErrorView::InvalidAction),
        Some(RunMode::Daemon) => None,
        Some(_) => denial(reg, d.base_job.eid, d.action, d.base_job.max_parallel),
    };
    if denied is Some {
        denied
    } else if d.instance_id is None {
        Some(ErrorView::MissingInstanceId)
    } else {
        None
    }
}

/// Whether `e` is a reason to turn the dispatch away: the reason that
/// `refusal` gives where it gives one; else only that no unused run id was
/// drawn, which cannot be where the job has no live run of the mode.
pub open spec fn turned_away(reg: RegistryView, d: DispatchView, e: ErrorView) -> bool {
    match refusal(reg, d) {
        Some(reason) => e == reason,
        None => e == ErrorView::NoFreshRunId && kill_list(
            reg,
            d.base_job.eid,
            mode_of_action(d.action).unwrap(),
        ).len() > 0,
    }
}

/// The registry after a dispatch has started an execution that is listed
/// with `entry`: counted where its mode is counted, and listed.
pub open spec fn after_enter(reg: RegistryView, d: DispatchView, entry: KillView) -> RegistryView {
    after_register(
        after_can_execute(reg, d.base_job.eid, d.action, d.base_job.max_parallel),
        d.base_job.eid,
        mode_of_action(d.action).unwrap(),
        entry,
    )
}

/// The job as the executor is to run it: a daemon's job has no limit on its
/// running time.
pub open spec fn job_to_run(e: ExecutionView) -> BaseJobView {
    if e.mode == RunMode::Daemon {
        untimed_job(e.params.base_job)
    } else {
        e.params.base_job
    }
}

/// What happens to an execution.
pub enum ExecutionEvent {
    /// The executor is about to start.
    Begin { start_time: Timestamp, prev_time: Option<Timestamp>, next_time: Option<Timestamp> },
    /// The executor is done.
    Complete { end_time: Timestamp, outcome: Result<ExecOutputView, Seq<char>> },
}

/// The execution after an event, and the report that the event calls for.
/// The opening report goes out once, when a listed execution begins; the
/// closing report goes out once, when a running execution completes; an
/// event that comes at any other time changes nothing and reports nothing.
pub open spec fn advance(e: ExecutionView, from: Origin, event: ExecutionEvent) -> (
    ExecutionView,
    Option<ReportView>,
) {
    match event {
        ExecutionEvent::Begin { start_time, prev_time, next_time } => {
            if e.phase is Listed {
                (
                    ExecutionView { phase: ExecutionPhase::Running { start_time }, ..e },
                    Some(
                        running_report(
                            from,
                            e.params,
                            e.instance_id,
                            schedule_of_mode(e.mode),
                            start_time,
                            prev_time,
                            next_time,
                        ),
                    ),
                )
            } else {
                (e, None)
            }
        },
        ExecutionEvent::Complete { end_time, outcome } => {
            match e.phase {
                ExecutionPhase::Running { start_time } => (
                    ExecutionView { phase: ExecutionPhase::Finished, ..e },
                    Some(
                        stop_report(
                            from,
                            e.params,
                            e.instance_id,
                            schedule_of_mode(e.mode),
                            start_time,
                            end_time,
                            outcome,
                        ),
                    ),
                ),
                _ => (e, None),
            }
        },
    }
}

/// The execution after a sequence of events.
pub open spec fn advanced(e: ExecutionView, from: Origin, events: Seq<ExecutionEvent>) -> ExecutionView
    decreases events.len(),
{
    if events.len() == 0 {
        e
    } else {
        advance(advanced(e, from, events.drop_last()), from, events.last()).0
    }
}

/// The reports that a sequence of events calls for, in their order.
pub open spec fn reports(e: ExecutionView, from: Origin, events: Seq<ExecutionEvent>) -> Seq<
    ReportView,
>
    decreases events.len(),
{
    if events.len() == 0 {
        Seq::empty()
    } else {
        let before = reports(e, from, events.drop_last());
        match advance(advanced(e, from, events.drop_last()), from, events.last()).1 {
            Some(report) => before.push(report),
            None => before,
        }
    }
}

/// Report pairing. Whatever happens to a listed execution, in whatever
/// order, its reports are an opening report, then a closing report, and
/// nothing else: none while it is listed, the opening one alone while it
/// runs, both once it has finished. The two carry the run id and the
/// schedule id of the dispatch, and the closing report repeats the start
/// time of the opening one.
pub proof fn lemma_report_pairing(e: ExecutionView, from: Origin, events: Seq<ExecutionEvent>)
    requires
        e.phase is Listed,
    ensures
        ({
            let after = advanced(e, from, events);
            let sent = reports(e, from, events);
            &&& after == ExecutionView { phase: after.phase, ..e }
            &&& after.phase is Listed <==> sent.len() == 0
            &&& after.phase is Running <==> sent.len() == 1
            &&& after.phase is Finished <==> sent.len() == 2
            &&& sent.len() >= 1 ==> {
                &&& sent[0].run_status == Some(RunStatus::Running)
                &&& sent[0].run_id == e.params.run_id
                &&& sent[0].schedule_id == e.params.schedule_id
                &&& after.phase matches ExecutionPhase::Running { start_time } ==> sent[0].start_time
                    == Some(start_time)
            }
            &&& sent.len() == 2 ==> {
                &&& sent[1].run_status == Some(RunStatus::Stop)
                &&& sent[1].run_id == sent[0].run_id
                &&& sent[1].schedule_id == sent[0].schedule_id
                &&& sent[1].start_time == sent[0].start_time
            }
        }),
    decreases events.len(),
{
    if events.len() > 0 {
        lemma_report_pairing(e, from, events.drop_last());
    }
}

/// Listing a run under an id that the list lacks and then ending that run
/// gives the list back.
pub proof fn lemma_push_then_without(kills: Seq<KillView>, entry: KillView)
    requires
        !has_run(kills, entry.run_id),
    ensures
        has_run(kills.push(entry), entry.run_id),
        without_run(kills.push(entry), entry.run_id) == kills,
{
    reveal(Seq::filter);
    let longer = kills.push(entry);
    assert(longer[kills.len() as int].run_id == entry.run_id);
    assert(longer.drop_last() =~= kills);
    lemma_without_absent_run(kills, entry.run_id);
}

/// No orphaned increments. When a dispatch has started an execution and the
/// execution is released, every job has the counters and the kill lists
/// that it had before, provided that the run was listed under an id that
/// no live run of the job and mode had.
pub proof fn lemma_release_restores(reg: RegistryView, d: DispatchView, entry: KillView)
    requires
        refusal(reg, d) is None,
        !has_run(kill_list(reg, d.base_job.eid, mode_of_action(d.action).unwrap()), entry.run_id),
    ensures
        forall|eid: Seq<char>|
            context_of(
                after_end(
                    after_enter(reg, d, entry),
                    d.base_job.eid,
                    mode_of_action(d.action).unwrap(),
                    entry.run_id,
                ),
                eid,
            ) == context_of(reg, eid),
{
    let mode = mode_of_action(d.action).unwrap();
    let eid = d.base_job.eid;
    lemma_push_then_without(kill_list(reg, eid, mode), entry);
    let end = after_end(after_enter(reg, d, entry), eid, mode, entry.run_id);
    assert(context_of(end, eid) =~= context_of(reg, eid));
}

/// Giving a count back undoes the counting. When `can_execute` has let a
/// dispatch in and the count is given back, every job has the counters and
/// the kill lists that it had before.
pub proof fn lemma_give_back_restores(
    reg: RegistryView,
    eid: Seq<char>,
    action: JobAction,
    max_parallel: Option<u32>,
)
    requires
        denial(reg, eid, action, max_parallel) is None,
    ensures
        forall|other: Seq<char>|
            context_of(
                after_give_back(
                    after_can_execute(reg, eid, action, max_parallel),
                    eid,
                    mode_of_action(action).unwrap(),
                ),
                other,
            ) == context_of(reg, other),
{
    let mode = mode_of_action(action).unwrap();
    let end = after_give_back(after_can_execute(reg, eid, action, max_parallel), eid, mode);
    assert(context_of(end, eid) =~= context_of(reg, eid));
}

impl Execution {
    /// Starts an execution of `params`, if the kernel lets it, with the run
    /// ids that were drawn for it: the run is counted where its mode is
    /// counted and listed with `kill` under the first drawn id that no live
    /// run of the job and mode has. The dispatch is turned away for the
    /// reason that `refusal` gives, and where nothing refuses it but every
    /// drawn id is taken; then the kernel's state stays as it was.
    pub fn enter_with(
        react: &mut React,
        params: DispatchJobParams,
        kill: Sender<()>,
        drawn: &Vec<String>,
    ) -> (out: Result<Execution, ReactError>)
        requires
            old(react).wf(),
        ensures
            final(react).wf(),
            match out {
                Ok(exec) => {
                    &&& refusal(old(react)@.registry, params@) is None
                    &&& exec@ == (ExecutionView {
                        params: params@,
                        instance_id: params@.instance_id.unwrap(),
                        mode: mode_of_action(params.action).unwrap(),
                        listed_as: exec@.listed_as,
                        phase: ExecutionPhase::Listed,
                    })
                    &&& exists|i: int|
                        {
                            &&& #[trigger] first_unused_at(
                                kill_list(
                                    old(react)@.registry,
                                    params@.base_job.eid,
                                    mode_of_action(params.action).unwrap(),
                                ),
                                texts(drawn@),
                                i,
                            )
                            &&& exec@.listed_as == texts(drawn@)[i]
                        }
                    &&& final(react)@ == (ReactView {
                        registry: after_enter(
                            old(react)@.registry,
                            params@,
                            KillView { run_id: exec@.listed_as, kill },
                        ),
                        ..old(react)@
                    })
                },
                Err(e) => {
                    &&& final(react)@ == old(react)@
                    &&& match refusal(old(react)@.registry, params@) {
                        Some(reason) => e@ == reason,
                        None => e@ == ErrorView::NoFreshRunId && all_taken(
                            kill_list(
                                old(react)@.registry,
                                params@.base_job.eid,
                                mode_of_action(params.action).unwrap(),
                            ),
                            texts(drawn@),
                        ),
                    }
                },
            },
    {
        let mode = match RunMode::of_action(params.action) {
            Some(mode) => mode,
            None => {
                return Err(ReactError::InvalidAction);
            },
        };
        let counted = match mode {
            RunMode::Daemon => false,
            _ => true,
        };
        if counted {
            let cap = params.base_job.max_parallel();
            if react.running(params.base_job.eid.as_str(), mode) >= cap {
                return Err(
                    ReactError::MaxParallel { eid: params.base_job.eid.clone(), max_parallel: cap },
                );
            }
        }
        let instance_id = match &params.instance_id {
            Some(id) => id.clone(),
            None => {
                return Err(ReactError::MissingInstanceId);
            },
        };
        let listed_as = match react.first_unused(params.base_job.eid.as_str(), mode, drawn) {
            Some(i) => {
                assert(texts(drawn@)[i as int] == drawn@[i as int]@);
                drawn[i].clone()
            },
            None => {
                return Err(ReactError::NoFreshRunId);
            },
        };
        if counted {
            match react.can_execute(&params) {
                Ok(_) => {},
                Err(e) => {
                    return Err(e);
                },
            }
        }
        react.list_run(params.base_job.eid.as_str(), mode, listed_as.clone(), kill);
        Ok(Execution { params, instance_id, mode, listed_as, phase: ExecutionPhase::Listed })
    }

    /// Starts an execution of `params`, if the kernel lets it: it draws the
    /// run ids and does what `enter_with` does with them. The run is counted
    /// where its mode is counted and listed with `kill` under a run id of
    /// its own, which no live run of the job and mode has. Where the
    /// dispatch is turned away the kernel's state stays as it was.
    pub fn enter(react: &mut React, params: DispatchJobParams, kill: Sender<()>) -> (out: Result<
        Execution,
        ReactError,
    >)
        requires
            old(react).wf(),
        ensures
            final(react).wf(),
            match out {
                Ok(exec) => {
                    &&& refusal(old(react)@.registry, params@) is None
                    &&& exec@ == (ExecutionView {
                        params: params@,
                        instance_id: params@.instance_id.unwrap(),
                        mode: mode_of_action(params.action).unwrap(),
                        listed_as: exec@.listed_as,
                        phase: ExecutionPhase::Listed,
                    })
                    &&& exec@.listed_as.len() == RUN_ID_LENGTH
                    &&& !has_run(
                        kill_list(
                            old(react)@.registry,
                            params@.base_job.eid,
                            mode_of_action(params.action).unwrap(),
                        ),
                        exec@.listed_as,
                    )
                    &&& final(react)@ == (ReactView {
                        registry: after_enter(
                            old(react)@.registry,
                            params@,
                            KillView { run_id: exec@.listed_as, kill },
                        ),
                        ..old(react)@
                    })
                },
                Err(e) => {
                    &&& turned_away(old(react)@.registry, params@, e@)
                    &&& final(react)@ == old(react)@
                },
            },
    {
        let drawn = React::draw_run_ids();
        let out = Execution::enter_with(react, params, kill, &drawn);
        proof {
            let reg = old(react)@.registry;
            if out is Ok {
                let list = kill_list(reg, params@.base_job.eid, mode_of_action(params.action).unwrap());
                let i = choose|i: int|
                    #[trigger] first_unused_at(list, texts(drawn@), i) && out.unwrap()@.listed_as
                        == texts(drawn@)[i];
                assert(texts(drawn@)[i] == drawn@[i]@);
            } else if refusal(reg, params@) is None {
                let list = kill_list(reg, params@.base_job.eid, mode_of_action(params.action).unwrap());
                assert(texts(drawn@)[0] == drawn@[0]@);
                assert(has_run(list, texts(drawn@)[0]));
            }
        }
        out
    }

    /// The dispatch that is being executed.
    pub fn params(&self) -> (params: &DispatchJobParams)
        ensures
            params@ == self@.params,
    {
        &self.params
    }

    /// The list of the registry that holds the run.
    pub fn mode(&self) -> (mode: RunMode)
        ensures
            mode == self@.mode,
    {
        self.mode
    }

    /// The id under which the registry lists the run.
    pub fn listed_as(&self) -> (run_id: &String)
        ensures
            run_id@ == self@.listed_as,
    {
        &self.listed_as
    }

    /// How far the execution has come.
    pub fn phase(&self) -> (phase: ExecutionPhase)
        ensures
            phase == self@.phase,
    {
        self.phase
    }

    /// The job as the executor is to run it.
    pub fn job(&self) -> (job: BaseJob)
        ensures
            job@ == job_to_run(self@),
    {
        let mut job = self.params.base_job.copy();
        match self.mode {
            RunMode::Daemon => {
                job.timeout = 0;
            },
            _ => {},
        }
        assert(job@ =~= job_to_run(self@));
        job
    }

    /// The executor is about to start at `start_time`. Hands back the
    /// opening report where one is due.
    pub fn begin(
        &mut self,
        bind_namespace: &str,
        bind_ip: &str,
        start_time: Timestamp,
        prev_time: Option<Timestamp>,
        next_time: Option<Timestamp>,
    ) -> (report: Option<UpdateJobParams>)
        ensures
            ({
                let step = advance(
                    old(self)@,
                    Origin { namespace: bind_namespace@, ip: bind_ip@ },
                    ExecutionEvent::Begin { start_time, prev_time, next_time },
                );
                &&& final(self)@ == step.0
                &&& match report {
                    Some(r) => step.1 == Some(r@),
                    None => step.1 is None,
                }
            }),
    {
        match self.phase {
            ExecutionPhase::Listed => {
                let built = UpdateJobParams::running_for(
                    bind_namespace,
                    bind_ip,
                    &self.params,
                    self.instance_id.as_str(),
                    self.mode.schedule_type(),
                    start_time,
                    prev_time,
                    next_time,
                );
                self.phase = ExecutionPhase::Running { start_time };
                Some(built)
            },
            _ => None,
        }
    }

    /// The executor is done at `end_time` with `outcome`. Hands back the
    /// closing report where one is due.
    pub fn complete(
        &mut self,
        bind_namespace: &str,
        bind_ip: &str,
        end_time: Timestamp,
        outcome: &Result<ExecOutput, String>,
    ) -> (report: Option<UpdateJobParams>)
        ensures
            ({
                let step = advance(
                    old(self)@,
                    Origin { namespace: bind_namespace@, ip: bind_ip@ },
                    ExecutionEvent::Complete { end_time, outcome: outcome_view(*outcome) },
                );
                &&& final(self)@ == step.0
                &&& match report {
                    Some(r) => step.1 == Some(r@),
                    None => step.1 is None,
                }
            }),
    {
        match self.phase {
            ExecutionPhase::Running { start_time } => {
                let built = UpdateJobParams::stop_for(
                    bind_namespace,
                    bind_ip,
                    &self.params,
                    self.instance_id.as_str(),
                    self.mode.schedule_type(),
                    start_time,
                    end_time,
                    outcome,
                );
                self.phase = ExecutionPhase::Finished;
                Some(built)
            },
            _ => None,
        }
    }

    /// Gives up the execution's place in the registry, whatever phase it is
    /// in, and tells whether the run was still listed.
    pub fn release(self, react: &mut React) -> (found: bool)
        requires
            old(react).wf(),
        ensures
            final(react).wf(),
            found == has_run(
                kill_list(old(react)@.registry, self@.params.base_job.eid, self@.mode),
                self@.listed_as,
            ),
            final(react)@ == (ReactView {
                registry: after_end(
                    old(react)@.registry,
                    self@.params.base_job.eid,
                    self@.mode,
                    self@.listed_as,
                ),
                ..old(react)@
            }),
    {
        react.end_run(self.params.base_job.eid.as_str(), self.mode, self.listed_as.as_str())
    }
}

} // verus!
