//! The kernel's shared state: the run registry, the cron bindings and the
//! supervisor bindings, with the operations that the kernel runs under its
//! lock. None of them waits for anything.

use vstd::prelude::*;
use tokio::sync::mpsc::{Sender, UnboundedSender};
use uuid::Uuid;
use crate::error::{ErrorView, ReactError};
use crate::job::DispatchJobParams;
use crate::outside::{draw_id, post};
use crate::registry::{
    after_can_execute, after_end, after_give_back, after_register, all_taken, denial,
    first_unused_at, has_run, kill_list, KillEntry, KillSignal, KillView, RegistryView,
    RunningJobContext, MAX_RUN_ID_DRAWS, RUN_ID_LENGTH,
};
use crate::text::texts;
use crate::supervisor::SupervisorSignal;
use crate::table::Table;
use crate::types::{mode_of_action, mode_of_schedule, RunMode, ScheduleType};

verus! {

/// The cron bindings: a job's external id to the handle of its schedule.
pub type ScheduleBindings = Map<Seq<char>, Uuid>;

/// The supervisor bindings: a job's external id to its supervisor's inbox.
pub type SupervisorBindings = Map<Seq<char>, UnboundedSender<SupervisorSignal>>;

/// What became of a request to supervise a job.
#[derive(Clone, Copy, Debug, PartialEq, Eq, Structural)]
pub enum SupervisorUpdate {
    /// The job had no supervisor: the inbox that came with the request is
    /// bound to it.
    Installed,
    /// The job had a supervisor: the new options were offered to its inbox,
    /// and `taken` tells whether the inbox took them.
    Forwarded { taken: bool },
}

/// The kernel's shared state.
pub struct React {
    output_dir: String,
    namespace: String,
    local_ip: String,
    client_key: String,
    schedule_uuid_mapping: Table<Uuid>,
    supervisor_jobs: Table<UnboundedSender<SupervisorSignal>>,
    running_job_contexts: Table<RunningJobContext>,
}

/// The model of a [`React`].
#[verifier::ext_equal]
pub struct ReactView {
    pub output_dir: Seq<char>,
    pub namespace: Seq<char>,
    pub local_ip: Seq<char>,
    pub client_key: Seq<char>,
    pub schedules: ScheduleBindings,
    pub supervisors: SupervisorBindings,
    pub registry: RegistryView,
}

/// The models of the records of a table of jobs.
pub open spec fn registry_view(m: Map<Seq<char>, RunningJobContext>) -> RegistryView {
    m.map_values(|c: RunningJobContext| c@)
}

/// What `key` is bound to in `m`, if anything.
pub open spec fn bound<V>(m: Map<Seq<char>, V>, key: Seq<char>) -> Option<V> {
    if m.contains_key(key) {
        Some(m[key])
    } else {
        None
    }
}

/// Cron replacement. When a job is given a schedule and then another, the
/// second binding hands back the first handle, which the caller cancels,
/// and the job is left bound to the second handle alone: the bindings are
/// what they would be had the first schedule never been added.
pub proof fn lemma_schedule_replaced(
    schedules: ScheduleBindings,
    eid: Seq<char>,
    first: Uuid,
    second: Uuid,
)
    ensures
        bound(schedules.insert(eid, first), eid) == Some(first),
        bound(schedules.insert(eid, first).insert(eid, second), eid) == Some(second),
        schedules.insert(eid, first).insert(eid, second) == schedules.insert(eid, second),
{
    assert(schedules.insert(eid, first).insert(eid, second) =~= schedules.insert(eid, second));
}

impl View for React {
    type V = ReactView;

    closed spec fn view(&self) -> ReactView {
        ReactView {
            output_dir: self.output_dir@,
            namespace: self.namespace@,
            local_ip: self.local_ip@,
            client_key: self.client_key@,
            schedules: self.schedule_uuid_mapping@,
            supervisors: self.supervisor_jobs@,
            registry: registry_view(self.running_job_contexts@),
        }
    }
}

proof fn lemma_registry_lookup(m: Map<Seq<char>, RunningJobContext>, eid: Seq<char>)
    ensures
        registry_view(m).contains_key(eid) == m.contains_key(eid),
        m.contains_key(eid) ==> registry_view(m)[eid] == m[eid]@,
{
}

proof fn lemma_registry_insert(
    m: Map<Seq<char>, RunningJobContext>,
    eid: Seq<char>,
    ctx: RunningJobContext,
)
    ensures
        registry_view(m.insert(eid, ctx)) == registry_view(m).insert(eid, ctx@),
        registry_view(m.remove(eid).insert(eid, ctx)) == registry_view(m).insert(eid, ctx@),
{
    assert(registry_view(m.insert(eid, ctx)) =~= registry_view(m).insert(eid, ctx@));
    assert(m.remove(eid).insert(eid, ctx) =~= m.insert(eid, ctx));
}

impl React {
    /// The state's invariant: in each of the three tables a job occurs at
    /// most once.
    pub closed spec fn wf(&self) -> bool {
        &&& self.schedule_uuid_mapping.wf()
        &&& self.supervisor_jobs.wf()
        &&& self.running_job_contexts.wf()
    }

    /// The jobs that have a schedule, one for each schedule that is bound.
    pub closed spec fn scheduled_jobs(&self) -> Seq<Seq<char>> {
        self.schedule_uuid_mapping.keys()
    }

    /// The jobs that have a supervisor, one for each inbox that is bound.
    pub closed spec fn supervised_jobs(&self) -> Seq<Seq<char>> {
        self.supervisor_jobs.keys()
    }

    /// Uniqueness. In a well-formed state no job has two schedules and no
    /// job has two supervisors: each list names a job once, and names
    /// exactly the jobs that the bindings hold.
    pub proof fn lemma_one_binding_per_job(&self)
        requires
            self.wf(),
        ensures
            self.scheduled_jobs().no_duplicates(),
            self.supervised_jobs().no_duplicates(),
            forall|eid: Seq<char>|
                self.scheduled_jobs().contains(eid) <==> self@.schedules.contains_key(eid),
            forall|eid: Seq<char>|
                self.supervised_jobs().contains(eid) <==> self@.supervisors.contains_key(eid),
    {
        self.schedule_uuid_mapping.lemma_one_pair_per_key();
        self.supervisor_jobs.lemma_one_pair_per_key();
    }

    /// A kernel state without runs, schedules or supervisors.
    pub fn new(namespace: String, local_ip: String, client_key: String, output_dir: String) -> (react:
        Self)
        ensures
            react.wf(),
            react@ == (ReactView {
                output_dir: output_dir@,
                namespace: namespace@,
                local_ip: local_ip@,
                client_key: client_key@,
                schedules: Map::empty(),
                supervisors: Map::empty(),
                registry: Map::empty(),
            }),
    {
        let react = React {
            output_dir,
            namespace,
            local_ip,
            client_key,
            schedule_uuid_mapping: Table::new(),
            supervisor_jobs: Table::new(),
            running_job_contexts: Table::new(),
        };
        assert(react@.registry =~= Map::empty());
        react
    }

    /// The directory that executions write their artifacts under.
    pub fn output_dir(&self) -> (text: &String)
        ensures
            text@ == self@.output_dir,
    {
        &self.output_dir
    }

    /// The namespace that the agent reports under.
    pub fn namespace(&self) -> (text: &String)
        ensures
            text@ == self@.namespace,
    {
        &self.namespace
    }

    /// The address that the agent reports as its own.
    pub fn local_ip(&self) -> (text: &String)
        ensures
            text@ == self@.local_ip,
    {
        &self.local_ip
    }

    /// The key under which the coordinator knows the agent.
    pub fn client_key(&self) -> (text: &String)
        ensures
            text@ == self@.client_key,
    {
        &self.client_key
    }

    /// The way in for every counted run. A dispatch whose action is
    /// `Exec` or `StartTimer` is let through while the job has fewer runs of
    /// that mode in flight than its cap, and is then counted; any other
    /// dispatch is turned away and leaves the state as it was.
    pub fn can_execute(&mut self, params: &DispatchJobParams) -> (verdict: Result<(), ReactError>)
        requires
            old(self).wf(),
        ensures
            final(self).wf(),
            final(self)@ == (ReactView {
                registry: after_can_execute(
                    old(self)@.registry,
                    params@.base_job.eid,
                    params.action,
                    params@.base_job.max_parallel,
                ),
                ..old(self)@
            }),
            match verdict {
                Ok(_) => denial(
                    old(self)@.registry,
                    params@.base_job.eid,
                    params.action,
                    params@.base_job.max_parallel,
                ) is None,
                Err(e) => denial(
                    old(self)@.registry,
                    params@.base_job.eid,
                    params.action,
                    params@.base_job.max_parallel,
                ) == Some(e@),
            },
    {
        let mode = match RunMode::of_action(params.action) {
            Some(RunMode::Once) => RunMode::Once,
            Some(RunMode::Timer) => RunMode::Timer,
            _ => {
                return Err(ReactError::InvalidAction);
            },
        };
        let cap = params.base_job.max_parallel();
        let eid = params.base_job.eid.as_str();
        proof {
            lemma_registry_lookup(self.running_job_contexts@, eid@);
        }
        let parallel = match self.running_job_contexts.get(eid) {
            Some(ctx) => ctx.running(mode),
            None => 0,
        };
        assert(parallel == crate::registry::running(old(self)@.registry, eid@, mode));
        if parallel >= cap {
            return Err(ReactError::MaxParallel { eid: params.base_job.eid.clone(), max_parallel: cap });
        }
        let ctx = match self.running_job_contexts.remove(eid) {
            Some(ctx) => ctx,
            None => RunningJobContext::new(),
        };
        let ctx = ctx.bump(mode);
        proof {
            lemma_registry_insert(old(self).running_job_contexts@, eid@, ctx);
        }
        self.running_job_contexts.insert(params.base_job.eid.clone(), ctx);
        assert(self@ =~= (ReactView {
            registry: after_can_execute(
                old(self)@.registry,
                params@.base_job.eid,
                params.action,
                params@.base_job.max_parallel,
            ),
            ..old(self)@
        }));
        Ok(())
    }

    /// Whether a run with the id `run_id` is listed for `eid` under `mode`.
    pub fn is_listed(&self, eid: &str, mode: RunMode, run_id: &str) -> (listed: bool)
        requires
            self.wf(),
        ensures
            listed == has_run(kill_list(self@.registry, eid@, mode), run_id@),
    {
        proof {
            lemma_registry_lookup(self.running_job_contexts@, eid@);
        }
        match self.running_job_contexts.get(eid) {
            Some(ctx) => ctx.lists(mode, run_id),
            None => {
                assert(!has_run(Seq::<KillView>::empty(), run_id@));
                false
            },
        }
    }

    /// Draws the run ids that a run may be listed under, in the order in
    /// which they are tried.
    pub fn draw_run_ids() -> (drawn: Vec<String>)
        ensures
            drawn@.len() == MAX_RUN_ID_DRAWS,
            forall|i: int| 0 <= i < drawn@.len() ==> (#[trigger] drawn@[i])@.len() == RUN_ID_LENGTH,
    {
        let mut drawn: Vec<String> = Vec::new();
        while drawn.len() < MAX_RUN_ID_DRAWS
            invariant
                drawn@.len() <= MAX_RUN_ID_DRAWS,
                forall|i: int|
                    0 <= i < drawn@.len() ==> (#[trigger] drawn@[i])@.len() == RUN_ID_LENGTH,
            decreases MAX_RUN_ID_DRAWS - drawn@.len(),
        {
            drawn.push(draw_id(RUN_ID_LENGTH));
        }
        drawn
    }

    /// The place of the first of the drawn ids that no live run of `eid`
    /// under `mode` has; `None` where every one of them is taken.
    pub fn first_unused(&self, eid: &str, mode: RunMode, drawn: &Vec<String>) -> (picked: Option<
        usize,
    >)
        requires
            self.wf(),
        ensures
            match picked {
                Some(i) => first_unused_at(
                    kill_list(self@.registry, eid@, mode),
                    texts(drawn@),
                    i as int,
                ),
                None => all_taken(kill_list(self@.registry, eid@, mode), texts(drawn@)),
            },
    {
        let mut i: usize = 0;
        while i < drawn.len()
            invariant
                self.wf(),
                i <= drawn@.len(),
                forall|j: int|
                    0 <= j < i ==> has_run(
                        kill_list(self@.registry, eid@, mode),
                        #[trigger] texts(drawn@)[j],
                    ),
            decreases drawn@.len() - i,
        {
            if !self.is_listed(eid, mode, drawn[i].as_str()) {
                assert(texts(drawn@)[i as int] == drawn@[i as int]@);
                return Some(i);
            }
            assert(texts(drawn@)[i as int] == drawn@[i as int]@);
            i += 1;
        }
        None
    }

    /// Gives back a count that `can_execute` has made for a run of `eid`
    /// under `mode` that is not going to be listed: the counter goes down
    /// by one, never below zero. The lists stay as they are, and a job
    /// without a record stays without one.
    pub fn give_back(&mut self, eid: &str, mode: RunMode)
        requires
            old(self).wf(),
        ensures
            final(self).wf(),
            final(self)@ == (ReactView {
                registry: after_give_back(old(self)@.registry, eid@, mode),
                ..old(self)@
            }),
    {
        proof {
            lemma_registry_lookup(self.running_job_contexts@, eid@);
        }
        match self.running_job_contexts.remove(eid) {
            Some(ctx) => {
                let ctx = ctx.lower(mode);
                proof {
                    lemma_registry_insert(old(self).running_job_contexts@, eid@, ctx);
                }
                self.running_job_contexts.insert(eid.to_owned(), ctx);
                assert(self@ =~= (ReactView {
                    registry: after_give_back(old(self)@.registry, eid@, mode),
                    ..old(self)@
                }));
            },
            None => {
                assert(self@ =~= old(self)@);
            },
        }
    }

    /// Lists a run of `eid` under `mode` as `run_id`, with the channel
    /// that asks it to stop, behind the runs already listed. A job without
    /// a record gets one, with both counters at zero. Listing does not count
    /// the run: counting is `can_execute`'s part.
    pub fn list_run(&mut self, eid: &str, mode: RunMode, run_id: String, kill: Sender<()>)
        requires
            old(self).wf(),
        ensures
            final(self).wf(),
            final(self)@ == (ReactView {
                registry: after_register(
                    old(self)@.registry,
                    eid@,
                    mode,
                    KillView { run_id: run_id@, kill },
                ),
                ..old(self)@
            }),
    {
        proof {
            lemma_registry_lookup(self.running_job_contexts@, eid@);
        }
        let ctx = match self.running_job_contexts.remove(eid) {
            Some(ctx) => ctx,
            None => RunningJobContext::new(),
        };
        let ctx = ctx.list(mode, KillEntry { run_id, kill });
        proof {
            lemma_registry_insert(old(self).running_job_contexts@, eid@, ctx);
        }
        self.running_job_contexts.insert(eid.to_owned(), ctx);
        assert(self@ =~= (ReactView {
            registry: after_register(
                old(self)@.registry,
                eid@,
                mode,
                KillView { run_id: run_id@, kill },
            ),
            ..old(self)@
        }));
    }

    /// Lists a run that is about to start under the first of the drawn ids
    /// that no live run of the job and mode has, with the channel that asks
    /// it to stop. The run goes behind the ones already listed for its
    /// mode: `Exec` runs once, `StartTimer` runs on a timer,
    /// `StartSupervising` runs as a daemon. Any other action is turned
    /// away, and so is a run for which every drawn id is taken.
    pub fn register_run(
        &mut self,
        params: &DispatchJobParams,
        kill_signal_tx: Sender<()>,
        drawn: &Vec<String>,
    ) -> (listed: Result<String, ReactError>)
        requires
            old(self).wf(),
        ensures
            final(self).wf(),
            match listed {
                Ok(run_id) => {
                    &&& mode_of_action(params.action) is Some
                    &&& exists|i: int|
                        {
                            &&& #[trigger] first_unused_at(
                                kill_list(
                                    old(self)@.registry,
                                    params@.base_job.eid,
                                    mode_of_action(params.action).unwrap(),
                                ),
                                texts(drawn@),
                                i,
                            )
                            &&& run_id@ == texts(drawn@)[i]
                        }
                    &&& final(self)@ == (ReactView {
                        registry: after_register(
                            old(self)@.registry,
                            params@.base_job.eid,
                            mode_of_action(params.action).unwrap(),
                            KillView { run_id: run_id@, kill: kill_signal_tx },
                        ),
                        ..old(self)@
                    })
                },
                Err(e) => {
                    &&& final(self)@ == old(self)@
                    &&& match mode_of_action(params.action) {
                        None => e@ == ErrorView::InvalidAction,
                        Some(mode) => e@ == ErrorView::NoFreshRunId && all_taken(
                            kill_list(old(self)@.registry, params@.base_job.eid, mode),
                            texts(drawn@),
                        ),
                    }
                },
            },
    {
        let mode = match RunMode::of_action(params.action) {
            Some(mode) => mode,
            None => {
                return Err(ReactError::InvalidAction);
            },
        };
        let eid = params.base_job.eid.as_str();
        let run_id = match self.first_unused(eid, mode, drawn) {
            Some(i) => {
                assert(texts(drawn@)[i as int] == drawn@[i as int]@);
                drawn[i].clone()
            },
            None => {
                return Err(ReactError::NoFreshRunId);
            },
        };
        self.list_run(eid, mode, run_id.clone(), kill_signal_tx);
        Ok(run_id)
    }

    /// Lists a run that is about to start, under a run id drawn for it that
    /// no live run of the job and mode has, with the channel that asks it to
    /// stop: it draws the ids and does what `register_run` does with them.
    /// A run for which no unused id was drawn is turned away, which cannot
    /// happen to a job without live runs of the mode.
    pub fn set_execute_context(
        &mut self,
        params: &DispatchJobParams,
        kill_signal_tx: Sender<()>,
    ) -> (listed: Result<String, ReactError>)
        requires
            old(self).wf(),
        ensures
            final(self).wf(),
            match listed {
                Ok(run_id) => {
                    &&& mode_of_action(params.action) is Some
                    &&& run_id@.len() == RUN_ID_LENGTH
                    &&& !has_run(
                        kill_list(
                            old(self)@.registry,
                            params@.base_job.eid,
                            mode_of_action(params.action).unwrap(),
                        ),
                        run_id@,
                    )
                    &&& final(self)@ == (ReactView {
                        registry: after_register(
                            old(self)@.registry,
                            params@.base_job.eid,
                            mode_of_action(params.action).unwrap(),
                            KillView { run_id: run_id@, kill: kill_signal_tx },
                        ),
                        ..old(self)@
                    })
                },
                Err(e) => {
                    &&& final(self)@ == old(self)@
                    &&& match mode_of_action(params.action) {
                        None => e@ == ErrorView::InvalidAction,
                        Some(mode) => e@ == ErrorView::NoFreshRunId && kill_list(
                            old(self)@.registry,
                            params@.base_job.eid,
                            mode,
                        ).len() > 0,
                    }
                },
            },
    {
        let drawn = React::draw_run_ids();
        let listed = self.register_run(params, kill_signal_tx, &drawn);
        proof {
            if listed is Ok {
                let mode = mode_of_action(params.action).unwrap();
                let list = kill_list(old(self)@.registry, params@.base_job.eid, mode);
                let i = choose|i: int|
                    #[trigger] first_unused_at(list, texts(drawn@), i) && listed.unwrap()@ == texts(
                        drawn@,
                    )[i];
                assert(texts(drawn@)[i] == drawn@[i]@);
            } else if mode_of_action(params.action) is Some {
                assert(texts(drawn@)[0] == drawn@[0]@);
                let mode = mode_of_action(params.action).unwrap();
                let list = kill_list(old(self)@.registry, params@.base_job.eid, mode);
                assert(has_run(list, texts(drawn@)[0]));
            }
        }
        listed
    }

    /// Records that the run `run_id` of `eid` under `mode` has ended, and
    /// tells whether it was listed. Where it was, the counter of the mode
    /// goes down by one, never below zero, and the run leaves the list with
    /// its kill channel; where it was not, or the job has no record, nothing
    /// changes, so that ending a run twice is harmless.
    pub fn end_run(&mut self, eid: &str, mode: RunMode, run_id: &str) -> (found: bool)
        requires
            old(self).wf(),
        ensures
            final(self).wf(),
            found == has_run(kill_list(old(self)@.registry, eid@, mode), run_id@),
            final(self)@ == (ReactView {
                registry: after_end(old(self)@.registry, eid@, mode, run_id@),
                ..old(self)@
            }),
    {
        proof {
            lemma_registry_lookup(self.running_job_contexts@, eid@);
        }
        match self.running_job_contexts.remove(eid) {
            Some(ctx) => {
                let (ctx, found) = ctx.end(mode, run_id);
                proof {
                    lemma_registry_insert(old(self).running_job_contexts@, eid@, ctx);
                }
                self.running_job_contexts.insert(eid.to_owned(), ctx);
                assert(self@ =~= (ReactView {
                    registry: after_end(old(self)@.registry, eid@, mode, run_id@),
                    ..old(self)@
                }));
                found
            },
            None => {
                assert(self@ =~= old(self)@);
                assert(!has_run(Seq::<KillView>::empty(), run_id@));
                false
            },
        }
    }

    /// Records that the run `params.run_id` of the dispatch's job has ended,
    /// as [`React::end_run`] does for the mode of the dispatch's action. An
    /// action that starts no run is turned away.
    pub fn end_execute(&mut self, params: &DispatchJobParams) -> (ended: Result<bool, ReactError>)
        requires
            old(self).wf(),
        ensures
            final(self).wf(),
            match ended {
                Ok(found) => {
                    &&& mode_of_action(params.action) is Some
                    &&& found == has_run(
                        kill_list(
                            old(self)@.registry,
                            params@.base_job.eid,
                            mode_of_action(params.action).unwrap(),
                        ),
                        params@.run_id,
                    )
                    &&& final(self)@ == (ReactView {
                        registry: after_end(
                            old(self)@.registry,
                            params@.base_job.eid,
                            mode_of_action(params.action).unwrap(),
                            params@.run_id,
                        ),
                        ..old(self)@
                    })
                },
                Err(e) => {
                    &&& mode_of_action(params.action) is None
                    &&& e@ == ErrorView::InvalidAction
                    &&& final(self)@ == old(self)@
                },
            },
    {
        match RunMode::of_action(params.action) {
            Some(mode) => Ok(self.end_run(params.base_job.eid.as_str(), mode, params.run_id.as_str())),
            None => Err(ReactError::InvalidAction),
        }
    }

    /// Offers a kill signal to every live run of the job under
    /// `schedule_type`, oldest first, and reports each attempt. The registry
    /// stays as it is: a run leaves its list when it ends, not when it is
    /// signalled. A job without a record has nothing to signal. A schedule
    /// type that keeps no runs is turned away.
    pub fn kill_job(&self, eid: &str, schedule_type: ScheduleType) -> (sent: Result<
        Vec<KillSignal>,
        ReactError,
    >)
        requires
            self.wf(),
        ensures
            match sent {
                Ok(signals) => {
                    &&& mode_of_schedule(schedule_type) is Some
                    &&& signals@.len() == kill_list(
                        self@.registry,
                        eid@,
                        mode_of_schedule(schedule_type).unwrap(),
                    ).len()
                    &&& forall|i: int|
                        0 <= i < signals@.len() ==> (#[trigger] signals@[i]).run_id@ == kill_list(
                            self@.registry,
                            eid@,
                            mode_of_schedule(schedule_type).unwrap(),
                        )[i].run_id
                },
                Err(e) => mode_of_schedule(schedule_type) is None && e@
                    == ErrorView::InvalidScheduleType,
            },
    {
        let mode = match RunMode::of_schedule(schedule_type) {
            Some(mode) => mode,
            None => {
                return Err(ReactError::InvalidScheduleType);
            },
        };
        proof {
            lemma_registry_lookup(self.running_job_contexts@, eid@);
        }
        match self.running_job_contexts.get(eid) {
            Some(ctx) => Ok(ctx.signal(mode)),
            None => Ok(Vec::new()),
        }
    }

    /// The counted runs of `eid` in `mode`.
    pub fn running(&self, eid: &str, mode: RunMode) -> (n: u32)
        requires
            self.wf(),
        ensures
            n == crate::registry::running(self@.registry, eid@, mode),
    {
        proof {
            lemma_registry_lookup(self.running_job_contexts@, eid@);
        }
        match self.running_job_contexts.get(eid) {
            Some(ctx) => ctx.running(mode),
            None => 0,
        }
    }

    /// The number of live runs of `eid` listed under `mode`.
    pub fn listed_runs(&self, eid: &str, mode: RunMode) -> (n: usize)
        requires
            self.wf(),
        ensures
            n == kill_list(self@.registry, eid@, mode).len(),
    {
        proof {
            lemma_registry_lookup(self.running_job_contexts@, eid@);
        }
        match self.running_job_contexts.get(eid) {
            Some(ctx) => ctx.listed_runs(mode),
            None => 0,
        }
    }

    /// Binds the job to the handle of a schedule that the cron engine has
    /// taken, and hands back the handle that the job was bound to before.
    /// That schedule is the caller's to cancel: the job has one schedule,
    /// the new one.
    pub fn add_job_schedule(&mut self, eid: String, handle: Uuid) -> (replaced: Option<Uuid>)
        requires
            old(self).wf(),
        ensures
            final(self).wf(),
            replaced == bound(old(self)@.schedules, eid@),
            final(self)@ == (ReactView {
                schedules: old(self)@.schedules.insert(eid@, handle),
                ..old(self)@
            }),
    {
        self.schedule_uuid_mapping.insert(eid, handle)
    }

    /// Unbinds the job from its schedule and hands back the handle, which
    /// is the caller's to cancel. A job without a schedule stays as it is.
    pub fn remove_job_schedule(&mut self, eid: &str) -> (removed: Option<Uuid>)
        requires
            old(self).wf(),
        ensures
            final(self).wf(),
            removed == bound(old(self)@.schedules, eid@),
            final(self)@ == (ReactView {
                schedules: old(self)@.schedules.remove(eid@),
                ..old(self)@
            }),
    {
        self.schedule_uuid_mapping.remove(eid)
    }

    /// Whether the job has a schedule.
    pub fn is_scheduled(&self, eid: &str) -> (scheduled: bool)
        requires
            self.wf(),
        ensures
            scheduled == self@.schedules.contains_key(eid@),
    {
        self.schedule_uuid_mapping.contains_key(eid)
    }

    /// Makes `tx` the inbox of the job's supervisor, unless the job has one
    /// already. Then `SupervisorSignal::update` of the new options is
    /// offered to the inbox of the supervisor that is there, `tx` is
    /// dropped, and the result hands back what became of the offer: no
    /// second supervisor starts.
    pub fn update_supervising(
        &mut self,
        eid: String,
        opts: DispatchJobParams,
        tx: UnboundedSender<SupervisorSignal>,
    ) -> (update: SupervisorUpdate)
        requires
            old(self).wf(),
        ensures
            final(self).wf(),
            update is Installed <==> !old(self)@.supervisors.contains_key(eid@),
            final(self)@ == if update is Installed {
                ReactView { supervisors: old(self)@.supervisors.insert(eid@, tx), ..old(self)@ }
            } else {
                old(self)@
            },
    {
        match self.supervisor_jobs.get(eid.as_str()) {
            Some(inbox) => {
                let taken = post(inbox, SupervisorSignal::update(opts));
                SupervisorUpdate::Forwarded { taken }
            },
            None => {
                self.supervisor_jobs.insert(eid, tx);
                SupervisorUpdate::Installed
            },
        }
    }

    /// Whether the job has a supervisor.
    pub fn is_supervising(&self, eid: &String) -> (supervising: bool)
        requires
            self.wf(),
        ensures
            supervising == self@.supervisors.contains_key(eid@),
    {
        self.supervisor_jobs.contains_key(eid.as_str())
    }

    /// Unbinds the job's supervisor and offers `SupervisorSignal::exit` to
    /// its inbox. The result is `None` where the job had no supervisor, and
    /// tells otherwise whether the inbox took the signal.
    pub fn stop_supervising(&mut self, eid: &String) -> (exit_taken: Option<bool>)
        requires
            old(self).wf(),
        ensures
            final(self).wf(),
            exit_taken is Some <==> old(self)@.supervisors.contains_key(eid@),
            final(self)@ == (ReactView {
                supervisors: old(self)@.supervisors.remove(eid@),
                ..old(self)@
            }),
    {
        match self.supervisor_jobs.remove(eid.as_str()) {
            Some(inbox) => Some(post(&inbox, SupervisorSignal::exit())),
            None => None,
        }
    }
}

} // verus!
