//! The run registry: for each job, how many runs of each counted mode are
//! in flight, and the kill channel of every live run.
//!
//! This file holds the record that the registry keeps per job, the
//! mathematical model of the whole registry, and the transitions of that
//! model. The operations themselves are methods of [`crate::react::React`].

use vstd::prelude::*;
use tokio::sync::mpsc::Sender;
use crate::error::ErrorView;
use crate::job::effective_max_parallel;
use crate::outside::offer_kill;
use crate::types::{mode_of_action, JobAction, RunMode};

verus! {

/// The number of characters of a run id that the agent draws.
pub const RUN_ID_LENGTH: usize = 21;

/// How many run ids are drawn for a run before the run is turned away
/// because each of them is the id of a live run.
pub const MAX_RUN_ID_DRAWS: usize = 4;

/// One live run: its id and the channel that asks it to stop.
#[derive(Debug)]
pub struct KillEntry {
    pub run_id: String,
    pub kill: Sender<()>,
}

/// The model of a [`KillEntry`].
pub struct KillView {
    pub run_id: Seq<char>,
    pub kill: Sender<()>,
}

impl View for KillEntry {
    type V = KillView;

    open spec fn view(&self) -> KillView {
        KillView { run_id: self.run_id@, kill: self.kill }
    }
}

/// The models of a list of live runs.
pub open spec fn kill_views(s: Seq<KillEntry>) -> Seq<KillView> {
    Seq::new(s.len(), |i: int| s[i]@)
}

/// How one attempt to signal a run ended.
#[derive(Clone, Debug, PartialEq, Eq)]
pub struct KillSignal {
    pub run_id: String,
    pub delivered: bool,
}

/// What the registry keeps for one job.
#[derive(Debug)]
pub struct RunningJobContext {
    timer_running_counter: u32,
    once_running_counter: u32,
    once_kill_senders: Vec<KillEntry>,
    timer_kill_senders: Vec<KillEntry>,
    daemon_kill_senders: Vec<KillEntry>,
}

/// The model of a [`RunningJobContext`].
#[verifier::ext_equal]
pub struct ContextView {
    pub timer_running: nat,
    pub once_running: nat,
    pub once_kills: Seq<KillView>,
    pub timer_kills: Seq<KillView>,
    pub daemon_kills: Seq<KillView>,
}

/// The model of the registry: a job's external id to its record.
pub type RegistryView = Map<Seq<char>, ContextView>;

impl View for RunningJobContext {
    type V = ContextView;

    closed spec fn view(&self) -> ContextView {
        ContextView {
            timer_running: self.timer_running_counter as nat,
            once_running: self.once_running_counter as nat,
            once_kills: kill_views(self.once_kill_senders@),
            timer_kills: kill_views(self.timer_kill_senders@),
            daemon_kills: kill_views(self.daemon_kill_senders@),
        }
    }
}

/// The record of a job that has no run in flight.
pub open spec fn idle_context() -> ContextView {
    ContextView {
        timer_running: 0,
        once_running: 0,
        once_kills: Seq::empty(),
        timer_kills: Seq::empty(),
        daemon_kills: Seq::empty(),
    }
}

impl ContextView {
    /// The counter of a mode. Daemons are listed and not counted.
    pub open spec fn counter(self, mode: RunMode) -> nat {
        match mode {
            RunMode::Once => self.once_running,
            RunMode::Timer => self.timer_running,
            RunMode::Daemon => 0,
        }
    }

    /// The live runs of a mode, oldest first.
    pub open spec fn kills(self, mode: RunMode) -> Seq<KillView> {
        match mode {
            RunMode::Once => self.once_kills,
            RunMode::Timer => self.timer_kills,
            RunMode::Daemon => self.daemon_kills,
        }
    }

    /// The record with the counter of `mode` set to `n`.
    pub open spec fn with_counter(self, mode: RunMode, n: nat) -> ContextView {
        match mode {
            RunMode::Once => ContextView { once_running: n, ..self },
            RunMode::Timer => ContextView { timer_running: n, ..self },
            RunMode::Daemon => self,
        }
    }

    /// The record with the live runs of `mode` set to `kills`.
    pub open spec fn with_kills(self, mode: RunMode, kills: Seq<KillView>) -> ContextView {
        match mode {
            RunMode::Once => ContextView { once_kills: kills, ..self },
            RunMode::Timer => ContextView { timer_kills: kills, ..self },
            RunMode::Daemon => ContextView { daemon_kills: kills, ..self },
        }
    }

    /// One more counted run of `mode`.
    pub open spec fn bumped(self, mode: RunMode) -> ContextView {
        self.with_counter(mode, self.counter(mode) + 1)
    }

    /// `entry` appended to the live runs of `mode`.
    pub open spec fn listed(self, mode: RunMode, entry: KillView) -> ContextView {
        self.with_kills(mode, self.kills(mode).push(entry))
    }

    /// The record after the run `run_id` of `mode` has ended: where the run
    /// is listed, the counter goes down by one, never below zero, and every
    /// pair under that id leaves the list; where it is not listed, nothing
    /// changes.
    pub open spec fn ended(self, mode: RunMode, run_id: Seq<char>) -> ContextView {
        if has_run(self.kills(mode), run_id) {
            self.with_counter(mode, lowered(self.counter(mode))).with_kills(
                mode,
                without_run(self.kills(mode), run_id),
            )
        } else {
            self
        }
    }
}

/// `n` less one, and zero for zero.
pub open spec fn lowered(n: nat) -> nat {
    if n > 0 {
        (n - 1) as nat
    } else {
        0
    }
}

/// Whether a run with this id is in the list.
pub open spec fn has_run(kills: Seq<KillView>, run_id: Seq<char>) -> bool {
    exists|i: int| 0 <= i < kills.len() && #[trigger] kills[i].run_id == run_id
}

/// The list without the pairs of the run `run_id`; the others keep their order.
pub open spec fn without_run(kills: Seq<KillView>, run_id: Seq<char>) -> Seq<KillView> {
    kills.filter(|k: KillView| k.run_id != run_id)
}

/// Whether every one of the drawn ids is the id of a listed run.
pub open spec fn all_taken(kills: Seq<KillView>, drawn: Seq<Seq<char>>) -> bool {
    forall|j: int| 0 <= j < drawn.len() ==> has_run(kills, #[trigger] drawn[j])
}

/// Whether the drawn id at `i` is the first that no listed run has.
pub open spec fn first_unused_at(kills: Seq<KillView>, drawn: Seq<Seq<char>>, i: int) -> bool {
    &&& 0 <= i < drawn.len()
    &&& !has_run(kills, drawn[i])
    &&& forall|j: int| 0 <= j < i ==> has_run(kills, #[trigger] drawn[j])
}

/// The record that the registry holds for `eid`; the idle record where it
/// holds none.
pub open spec fn context_of(reg: RegistryView, eid: Seq<char>) -> ContextView {
    if reg.contains_key(eid) {
        reg[eid]
    } else {
        idle_context()
    }
}

/// The counted runs of `eid` in `mode`.
pub open spec fn running(reg: RegistryView, eid: Seq<char>, mode: RunMode) -> nat {
    context_of(reg, eid).counter(mode)
}

/// The live runs of `eid` in `mode`, oldest first.
pub open spec fn kill_list(reg: RegistryView, eid: Seq<char>, mode: RunMode) -> Seq<KillView> {
    context_of(reg, eid).kills(mode)
}

/// Why a dispatch of `eid` is not let in; `None` where it may run.
pub open spec fn denial(
    reg: RegistryView,
    eid: Seq<char>,
    action: JobAction,
    max_parallel: Option<u32>,
) -> Option<ErrorView> {
    match mode_of_action(action) {
        Some(RunMode::Once) | Some(RunMode::Timer) => {
            let cap = effective_max_parallel(max_parallel);
            if running(reg, eid, mode_of_action(action).unwrap()) >= cap {
                Some(ErrorView::MaxParallel { eid, max_parallel: cap })
            } else {
                None
            }
        },
        _ => Some(ErrorView::InvalidAction),
    }
}

/// The registry after a run of `mode` has been let in and counted.
pub open spec fn after_counting(reg: RegistryView, eid: Seq<char>, mode: RunMode) -> RegistryView {
    reg.insert(eid, context_of(reg, eid).bumped(mode))
}

/// The registry after `can_execute`: one more counted run where the
/// dispatch is let in, and no change where it is not.
pub open spec fn after_can_execute(
    reg: RegistryView,
    eid: Seq<char>,
    action: JobAction,
    max_parallel: Option<u32>,
) -> RegistryView {
    if denial(reg, eid, action, max_parallel) is None {
        after_counting(reg, eid, mode_of_action(action).unwrap())
    } else {
        reg
    }
}

/// The registry after a count of `mode` was given back: the counter goes
/// down by one, never below zero, and the lists stay. A job without a
/// record stays without one.
pub open spec fn after_give_back(reg: RegistryView, eid: Seq<char>, mode: RunMode) -> RegistryView {
    if reg.contains_key(eid) {
        reg.insert(eid, reg[eid].with_counter(mode, lowered(reg[eid].counter(mode))))
    } else {
        reg
    }
}

/// The registry after a run of `mode` was listed with its kill channel.
pub open spec fn after_register(
    reg: RegistryView,
    eid: Seq<char>,
    mode: RunMode,
    entry: KillView,
) -> RegistryView {
    reg.insert(eid, context_of(reg, eid).listed(mode, entry))
}

/// The registry after the run `run_id` of `mode` has ended. A job without
/// a record stays without one.
pub open spec fn after_end(
    reg: RegistryView,
    eid: Seq<char>,
    mode: RunMode,
    run_id: Seq<char>,
) -> RegistryView {
    if reg.contains_key(eid) {
        reg.insert(eid, reg[eid].ended(mode, run_id))
    } else {
        reg
    }
}

/// Splitting the filter at the last element of a non-empty list.
proof fn lemma_without_run_last(kills: Seq<KillView>, run_id: Seq<char>)
    requires
        kills.len() > 0,
    ensures
        without_run(kills, run_id) == if kills.last().run_id != run_id {
            without_run(kills.drop_last(), run_id).push(kills.last())
        } else {
            without_run(kills.drop_last(), run_id)
        },
{
    reveal(Seq::filter);
}

/// Moves the pairs of `list` that do not belong to `run_id` into a new
/// list, in their order, and tells whether any pair belonged to it.
fn drop_run(list: Vec<KillEntry>, run_id: &str) -> (out: (Vec<KillEntry>, bool))
    ensures
        kill_views(out.0@) == without_run(kill_views(list@), run_id@),
        out.1 == has_run(kill_views(list@), run_id@),
{
    let wanted = run_id.to_owned();
    let ghost all = kill_views(list@);
    let mut rest = list;
    let mut kept: Vec<KillEntry> = Vec::new();
    let mut found = false;
    let ghost mut done: int = 0;
    assert(all.take(0) =~= Seq::<KillView>::empty());
    assert(without_run(all.take(0), run_id@) =~= Seq::<KillView>::empty()) by {
        reveal(Seq::filter);
    }
    assert(kill_views(rest@) =~= all.skip(0));
    assert(kill_views(kept@) =~= Seq::<KillView>::empty());
    while rest.len() > 0
        invariant
            wanted@ == run_id@,
            0 <= done <= all.len(),
            kill_views(rest@) == all.skip(done),
            kill_views(kept@) == without_run(all.take(done), run_id@),
            found == has_run(all.take(done), run_id@),
        decreases rest@.len(),
    {
        let ghost before = rest@;
        let entry = rest.remove(0);
        proof {
            assert(kill_views(before).len() == before.len());
            assert(all.skip(done).len() == all.len() - done);
            assert(kill_views(before)[0] == all.skip(done)[0]);
            assert(entry@ == all[done]);
            let next = all.take(done + 1);
            assert(next.drop_last() =~= all.take(done));
            assert(next.last() == all[done]);
            lemma_without_run_last(next, run_id@);
            assert(kill_views(rest@) =~= all.skip(done + 1)) by {
                assert forall|i: int| 0 <= i < rest@.len() implies kill_views(rest@)[i]
                    == all.skip(done + 1)[i] by {
                    assert(rest@[i] == before[i + 1]);
                    assert(kill_views(before)[i + 1] == all.skip(done)[i + 1]);
                }
            }
            if has_run(all.take(done), run_id@) {
                let i = choose|i: int|
                    0 <= i < all.take(done).len() && #[trigger] all.take(done)[i].run_id
                        == run_id@;
                assert(next[i].run_id == run_id@);
            }
            if has_run(next, run_id@) && all[done].run_id != run_id@ {
                let i = choose|i: int| 0 <= i < next.len() && #[trigger] next[i].run_id == run_id@;
                assert(all.take(done)[i].run_id == run_id@);
            }
            if all[done].run_id == run_id@ {
                assert(next[done].run_id == run_id@);
            }
        }
        if entry.run_id == wanted {
            found = true;
        } else {
            proof {
                assert(kill_views(kept@.push(entry)) =~= kill_views(kept@).push(entry@));
            }
            kept.push(entry);
        }
        proof {
            done = done + 1;
        }
    }
    proof {
        assert(all.take(done) =~= all);
    }
    (kept, found)
}

impl RunningJobContext {
    /// The record of a job that has no run in flight.
    pub fn new() -> (ctx: Self)
        ensures
            ctx@ == idle_context(),
    {
        let ctx = RunningJobContext {
            timer_running_counter: 0,
            once_running_counter: 0,
            once_kill_senders: Vec::new(),
            timer_kill_senders: Vec::new(),
            daemon_kill_senders: Vec::new(),
        };
        assert(ctx@ =~= idle_context());
        ctx
    }

    /// The counter of `mode`.
    pub fn running(&self, mode: RunMode) -> (n: u32)
        ensures
            n == self@.counter(mode),
    {
        match mode {
            RunMode::Once => self.once_running_counter,
            RunMode::Timer => self.timer_running_counter,
            RunMode::Daemon => 0,
        }
    }

    /// The number of live runs listed under `mode`.
    pub fn listed_runs(&self, mode: RunMode) -> (n: usize)
        ensures
            n == self@.kills(mode).len(),
    {
        match mode {
            RunMode::Once => self.once_kill_senders.len(),
            RunMode::Timer => self.timer_kill_senders.len(),
            RunMode::Daemon => self.daemon_kill_senders.len(),
        }
    }

    /// Whether a run with the id `run_id` is listed under `mode`.
    pub fn lists(&self, mode: RunMode, run_id: &str) -> (listed: bool)
        ensures
            listed == has_run(self@.kills(mode), run_id@),
    {
        let list = match mode {
            RunMode::Once => &self.once_kill_senders,
            RunMode::Timer => &self.timer_kill_senders,
            RunMode::Daemon => &self.daemon_kill_senders,
        };
        assert(kill_views(list@) == self@.kills(mode));
        let wanted = run_id.to_owned();
        let mut i: usize = 0;
        while i < list.len()
            invariant
                i <= list@.len(),
                wanted@ == run_id@,
                kill_views(list@) == self@.kills(mode),
                forall|j: int| 0 <= j < i ==> list@[j].run_id@ != run_id@,
            decreases list@.len() - i,
        {
            if list[i].run_id == wanted {
                assert(kill_views(list@)[i as int].run_id == run_id@);
                return true;
            }
            i += 1;
        }
        assert forall|j: int| 0 <= j < kill_views(list@).len() implies (#[trigger] kill_views(
            list@,
        )[j]).run_id != run_id@ by {
            assert(list@[j].run_id@ != run_id@);
        }
        false
    }

    /// Counts one more run of `mode`.
    pub fn bump(self, mode: RunMode) -> (ctx: Self)
        requires
            self@.counter(mode) < u32::MAX,
        ensures
            ctx@ == self@.bumped(mode),
    {
        let mut ctx = self;
        match mode {
            RunMode::Once => {
                ctx.once_running_counter = ctx.once_running_counter + 1;
            },
            RunMode::Timer => {
                ctx.timer_running_counter = ctx.timer_running_counter + 1;
            },
            RunMode::Daemon => {},
        }
        assert(ctx@ =~= self@.bumped(mode));
        ctx
    }

    /// Counts one run of `mode` less, and none less than zero.
    pub fn lower(self, mode: RunMode) -> (ctx: Self)
        ensures
            ctx@ == self@.with_counter(mode, lowered(self@.counter(mode))),
    {
        let mut ctx = self;
        match mode {
            RunMode::Once => {
                if ctx.once_running_counter > 0 {
                    ctx.once_running_counter = ctx.once_running_counter - 1;
                }
            },
            RunMode::Timer => {
                if ctx.timer_running_counter > 0 {
                    ctx.timer_running_counter = ctx.timer_running_counter - 1;
                }
            },
            RunMode::Daemon => {},
        }
        assert(ctx@ =~= self@.with_counter(mode, lowered(self@.counter(mode))));
        ctx
    }

    /// Lists a live run of `mode`, behind the ones already listed.
    pub fn list(self, mode: RunMode, entry: KillEntry) -> (ctx: Self)
        ensures
            ctx@ == self@.listed(mode, entry@),
    {
        let mut ctx = self;
        match mode {
            RunMode::Once => {
                ctx.once_kill_senders.push(entry);
            },
            RunMode::Timer => {
                ctx.timer_kill_senders.push(entry);
            },
            RunMode::Daemon => {
                ctx.daemon_kill_senders.push(entry);
            },
        }
        assert(ctx@.kills(mode) =~= self@.kills(mode).push(entry@));
        assert(ctx@ =~= self@.listed(mode, entry@));
        ctx
    }

    /// Records that the run `run_id` of `mode` has ended, and tells whether
    /// that run was listed.
    pub fn end(self, mode: RunMode, run_id: &str) -> (out: (Self, bool))
        ensures
            out.0@ == self@.ended(mode, run_id@),
            out.1 == has_run(self@.kills(mode), run_id@),
    {
        let RunningJobContext {
            timer_running_counter,
            once_running_counter,
            once_kill_senders,
            timer_kill_senders,
            daemon_kill_senders,
        } = self;
        let (ctx, found) = match mode {
            RunMode::Once => {
                let (kept, found) = drop_run(once_kill_senders, run_id);
                let counter = if found && once_running_counter > 0 {
                    once_running_counter - 1
                } else {
                    once_running_counter
                };
                (RunningJobContext {
                    timer_running_counter,
                    once_running_counter: counter,
                    once_kill_senders: kept,
                    timer_kill_senders,
                    daemon_kill_senders,
                }, found)
            },
            RunMode::Timer => {
                let (kept, found) = drop_run(timer_kill_senders, run_id);
                let counter = if found && timer_running_counter > 0 {
                    timer_running_counter - 1
                } else {
                    timer_running_counter
                };
                (RunningJobContext {
                    timer_running_counter: counter,
                    once_running_counter,
                    once_kill_senders,
                    timer_kill_senders: kept,
                    daemon_kill_senders,
                }, found)
            },
            RunMode::Daemon => {
                let (kept, found) = drop_run(daemon_kill_senders, run_id);
                (RunningJobContext {
                    timer_running_counter,
                    once_running_counter,
                    once_kill_senders,
                    timer_kill_senders,
                    daemon_kill_senders: kept,
                }, found)
            },
        };
        proof {
            lemma_without_absent_run(self@.kills(mode), run_id@);
            assert(ctx@ =~= self@.ended(mode, run_id@));
        }
        (ctx, found)
    }

    /// Offers a kill signal to every live run of `mode`, oldest first, and
    /// reports for each run whether its channel took the signal. A channel
    /// that refuses does not keep the later ones from being signalled.
    pub fn signal(&self, mode: RunMode) -> (signals: Vec<KillSignal>)
        ensures
            signals@.len() == self@.kills(mode).len(),
            forall|i: int|
                0 <= i < signals@.len() ==> (#[trigger] signals@[i]).run_id@ == self@.kills(
                    mode,
                )[i].run_id,
    {
        let list = match mode {
            RunMode::Once => &self.once_kill_senders,
            RunMode::Timer => &self.timer_kill_senders,
            RunMode::Daemon => &self.daemon_kill_senders,
        };
        assert(kill_views(list@) == self@.kills(mode));
        let mut signals: Vec<KillSignal> = Vec::new();
        let mut i: usize = 0;
        while i < list.len()
            invariant
                i <= list@.len(),
                signals@.len() == i,
                forall|j: int|
                    0 <= j < i ==> (#[trigger] signals@[j]).run_id@ == list@[j].run_id@,
            decreases list@.len() - i,
        {
            let delivered = offer_kill(&list[i].kill);
            signals.push(KillSignal { run_id: list[i].run_id.clone(), delivered });
            i += 1;
        }
        signals
    }
}

/// A list that holds no pair of a run is its own filter.
pub proof fn lemma_without_absent_run(kills: Seq<KillView>, run_id: Seq<char>)
    ensures
        !has_run(kills, run_id) ==> without_run(kills, run_id) == kills,
    decreases kills.len(),
{
    reveal(Seq::filter);
    if kills.len() > 0 && !has_run(kills, run_id) {
        let init = kills.drop_last();
        if has_run(init, run_id) {
            let i = choose|i: int| 0 <= i < init.len() && #[trigger] init[i].run_id == run_id;
            assert(kills[i].run_id == run_id);
        }
        lemma_without_absent_run(init, run_id);
        assert(kills.last() == kills[kills.len() - 1]);
        assert(init.push(kills.last()) =~= kills);
    } else if kills.len() == 0 {
        assert(without_run(kills, run_id) =~= kills);
    }
}

} // verus!
