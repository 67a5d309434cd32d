//! What holds of the registry along every sequence of operations.

use vstd::prelude::*;
use crate::job::effective_max_parallel;
use crate::registry::{
    after_can_execute, after_end, after_give_back, after_register, denial, has_run, kill_list,
    lemma_without_absent_run, lowered, running, without_run, ContextView, KillView, RegistryView,
};
use crate::types::{mode_of_action, JobAction, RunMode};

verus! {

/// One operation that changes the registry.
pub enum RegistryOp {
    /// `can_execute` for a dispatch of `eid`.
    CanExecute { eid: Seq<char>, action: JobAction, max_parallel: Option<u32> },
    /// `set_execute_context`: a run of `eid` is listed under `mode`.
    Register { eid: Seq<char>, mode: RunMode, entry: KillView },
    /// `end_execute`: the run `run_id` of `eid` under `mode` has ended.
    End { eid: Seq<char>, mode: RunMode, run_id: Seq<char> },
    /// `give_back`: a count of `eid` under `mode` is given back.
    GiveBack { eid: Seq<char>, mode: RunMode },
}

/// The registry after one operation.
pub open spec fn step(reg: RegistryView, op: RegistryOp) -> RegistryView {
    match op {
        RegistryOp::CanExecute { eid, action, max_parallel } => after_can_execute(
            reg,
            eid,
            action,
            max_parallel,
        ),
        RegistryOp::Register { eid, mode, entry } => after_register(reg, eid, mode, entry),
        RegistryOp::End { eid, mode, run_id } => after_end(reg, eid, mode, run_id),
        RegistryOp::GiveBack { eid, mode } => after_give_back(reg, eid, mode),
    }
}

/// The registry after a sequence of operations, the first one first.
pub open spec fn run_ops(reg: RegistryView, ops: Seq<RegistryOp>) -> RegistryView
    decreases ops.len(),
{
    if ops.len() == 0 {
        reg
    } else {
        step(run_ops(reg, ops.drop_last()), ops.last())
    }
}

/// Whether `op` asks to let in a run of `eid` under `mode`.
pub open spec fn asks_entry(op: RegistryOp, eid: Seq<char>, mode: RunMode) -> bool {
    op matches RegistryOp::CanExecute { eid: e, action, .. } && e == eid && mode_of_action(action)
        == Some(mode)
}

/// Whether `op` lists a run of `eid` under `mode`.
pub open spec fn lists_run(op: RegistryOp, eid: Seq<char>, mode: RunMode) -> bool {
    op matches RegistryOp::Register { eid: e, mode: m, .. } && e == eid && m == mode
}

/// One operation changes the counter of a job and mode in one of three
/// ways: a dispatch that is let in raises it by one, to no more
/// than that dispatch's cap; the end of a listed run and a count given
/// back lower it by one, not below zero; and everything else leaves it
/// alone.
pub proof fn lemma_step_counter(reg: RegistryView, op: RegistryOp, eid: Seq<char>, mode: RunMode)
    ensures
        running(step(reg, op), eid, mode) == match op {
            RegistryOp::CanExecute { eid: e, action, max_parallel } => if e == eid
                && mode_of_action(action) == Some(mode) && mode != RunMode::Daemon && running(
                reg,
                eid,
                mode,
            ) < effective_max_parallel(max_parallel) {
                running(reg, eid, mode) + 1
            } else {
                running(reg, eid, mode)
            },
            RegistryOp::Register { .. } => running(reg, eid, mode),
            RegistryOp::End { eid: e, mode: m, run_id } => if e == eid && m == mode && has_run(
                kill_list(reg, eid, mode),
                run_id,
            ) {
                lowered(running(reg, eid, mode))
            } else {
                running(reg, eid, mode)
            },
            RegistryOp::GiveBack { eid: e, mode: m } => if e == eid && m == mode {
                lowered(running(reg, eid, mode))
            } else {
                running(reg, eid, mode)
            },
        },
{
}

/// The parallelism cap. Take any sequence of registry operations in which
/// every dispatch of `eid` that asks for a run under `mode` has a
/// cap of at most `cap`. If the job starts with at most `cap` counted runs
/// of that mode, as it does in an empty registry, then it has at most `cap`
/// of them after every prefix of the sequence.
pub proof fn lemma_parallelism_cap(
    start: RegistryView,
    ops: Seq<RegistryOp>,
    eid: Seq<char>,
    mode: RunMode,
    cap: nat,
    n: int,
)
    requires
        running(start, eid, mode) <= cap,
        forall|i: int|
            0 <= i < ops.len() && asks_entry(#[trigger] ops[i], eid, mode) ==> effective_max_parallel(
                ops[i]->CanExecute_max_parallel,
            ) <= cap,
        0 <= n <= ops.len(),
    ensures
        running(run_ops(start, ops.take(n)), eid, mode) <= cap,
    decreases n,
{
    if n > 0 {
        let prefix = ops.take(n);
        assert(prefix.drop_last() =~= ops.take(n - 1));
        assert(prefix.last() == ops[n - 1]);
        lemma_parallelism_cap(start, ops, eid, mode, cap, n - 1);
        lemma_step_counter(run_ops(start, ops.take(n - 1)), ops[n - 1], eid, mode);
    }
}

/// In the empty registry no job has a counted or a listed run.
pub proof fn lemma_empty_registry(eid: Seq<char>, mode: RunMode)
    ensures
        running(Map::<Seq<char>, ContextView>::empty(), eid, mode) == 0,
        kill_list(Map::<Seq<char>, ContextView>::empty(), eid, mode).len() == 0,
{
}

/// Ending a run leaves none of its pairs listed.
pub proof fn lemma_ended_run_is_gone(kills: Seq<KillView>, run_id: Seq<char>)
    ensures
        !has_run(without_run(kills, run_id), run_id),
{
    let pred = |k: KillView| k.run_id != run_id;
    let rest = without_run(kills, run_id);
    kills.filter_lemma(pred);
    if has_run(rest, run_id) {
        let i = choose|i: int| 0 <= i < rest.len() && #[trigger] rest[i].run_id == run_id;
        assert(pred(rest[i]));
    }
}

/// Idempotent cleanup. Ending the same run a second time changes nothing:
/// the registry after two calls of `end_execute` is the registry after one,
/// so the counter has gone down once.
pub proof fn lemma_end_twice(reg: RegistryView, eid: Seq<char>, mode: RunMode, run_id: Seq<char>)
    ensures
        after_end(after_end(reg, eid, mode, run_id), eid, mode, run_id) == after_end(
            reg,
            eid,
            mode,
            run_id,
        ),
        running(after_end(after_end(reg, eid, mode, run_id), eid, mode, run_id), eid, mode)
            == if has_run(kill_list(reg, eid, mode), run_id) {
            lowered(running(reg, eid, mode))
        } else {
            running(reg, eid, mode)
        },
{
    let once = after_end(reg, eid, mode, run_id);
    lemma_ended_run_is_gone(kill_list(reg, eid, mode), run_id);
    assert(!has_run(kill_list(once, eid, mode), run_id));
    assert(after_end(once, eid, mode, run_id) =~= once);
}

/// How many of the operations are dispatches of `eid` that ask for a run
/// under `mode` and are let in, when the sequence is run from `start`.
pub open spec fn admitted(
    start: RegistryView,
    ops: Seq<RegistryOp>,
    eid: Seq<char>,
    mode: RunMode,
) -> nat
    decreases ops.len(),
{
    if ops.len() == 0 {
        0
    } else {
        let before = run_ops(start, ops.drop_last());
        let here: nat = if asks_entry(ops.last(), eid, mode) && denial(
            before,
            eid,
            ops.last()->CanExecute_action,
            ops.last()->CanExecute_max_parallel,
        ) is None {
            1
        } else {
            0
        };
        admitted(start, ops.drop_last(), eid, mode) + here
    }
}

/// How many of the operations list a run of `eid` under `mode`.
pub open spec fn listings(ops: Seq<RegistryOp>, eid: Seq<char>, mode: RunMode) -> nat
    decreases ops.len(),
{
    if ops.len() == 0 {
        0
    } else {
        let here: nat = if lists_run(ops.last(), eid, mode) {
            1
        } else {
            0
        };
        listings(ops.drop_last(), eid, mode) + here
    }
}

/// Whether `op` gives back a count of `eid` under `mode`.
pub open spec fn gives_back(op: RegistryOp, eid: Seq<char>, mode: RunMode) -> bool {
    op matches RegistryOp::GiveBack { eid: e, mode: m } && e == eid && m == mode
}

/// How many of the operations give back a count of `eid` under `mode`.
pub open spec fn handbacks(ops: Seq<RegistryOp>, eid: Seq<char>, mode: RunMode) -> nat
    decreases ops.len(),
{
    if ops.len() == 0 {
        0
    } else {
        let here: nat = if gives_back(ops.last(), eid, mode) {
            1
        } else {
            0
        };
        handbacks(ops.drop_last(), eid, mode) + here
    }
}

/// No two pairs of the list belong to the same run.
pub open spec fn distinct_runs(kills: Seq<KillView>) -> bool {
    forall|i: int, j: int|
        0 <= i < j < kills.len() ==> (#[trigger] kills[i]).run_id != (#[trigger] kills[j]).run_id
}

/// The kernel's discipline for the runs of `eid` under `mode`, as
/// `Execution::enter` keeps it: a count is made for each run that is let
/// in, and each count is used once, for a run that is listed or to be given
/// back; and a run is listed under an id that no live run of the job and
/// mode has at that moment.
pub open spec fn orderly(ops: Seq<RegistryOp>, eid: Seq<char>, mode: RunMode) -> bool {
    &&& forall|n: int|
        0 <= n <= ops.len() ==> listings(#[trigger] ops.take(n), eid, mode) + handbacks(
            ops.take(n),
            eid,
            mode,
        ) <= admitted(Map::empty(), ops.take(n), eid, mode)
    &&& forall|n: int|
        0 <= n < ops.len() && lists_run(#[trigger] ops[n], eid, mode) ==> !has_run(
            kill_list(run_ops(Map::empty(), ops.take(n)), eid, mode),
            ops[n]->Register_entry.run_id,
        )
}

/// What is left of a list after a run has ended: pairs of the list, in no
/// case a pair of that run; distinct runs stay distinct; and where the runs
/// are distinct and the run was listed, the list is shorter by one.
pub proof fn lemma_without_run_keeps(kills: Seq<KillView>, run_id: Seq<char>)
    ensures
        forall|a: int|
            0 <= a < without_run(kills, run_id).len() ==> has_run(
                kills,
                (#[trigger] without_run(kills, run_id)[a]).run_id,
            ),
        distinct_runs(kills) ==> distinct_runs(without_run(kills, run_id)),
        distinct_runs(kills) && has_run(kills, run_id) ==> without_run(kills, run_id).len()
            == kills.len() - 1,
        !has_run(kills, run_id) ==> without_run(kills, run_id) == kills,
    decreases kills.len(),
{
    reveal(Seq::filter);
    lemma_without_absent_run(kills, run_id);
    let rest = without_run(kills, run_id);
    if kills.len() > 0 {
        let init = kills.drop_last();
        let last = kills.last();
        let init_rest = without_run(init, run_id);
        lemma_without_run_keeps(init, run_id);
        lemma_without_absent_run(init, run_id);
        assert forall|a: int| 0 <= a < rest.len() implies has_run(
            kills,
            (#[trigger] rest[a]).run_id,
        ) by {
            if a < init_rest.len() {
                assert(rest[a] == init_rest[a]);
                let id = init_rest[a].run_id;
                assert(has_run(init, id));
                let i = choose|i: int| 0 <= i < init.len() && #[trigger] init[i].run_id == id;
                assert(kills[i].run_id == id);
            } else {
                assert(rest[a] == last);
                assert(kills[kills.len() - 1].run_id == last.run_id);
            }
        }
        if distinct_runs(kills) {
            assert(distinct_runs(init)) by {
                assert forall|i: int, j: int| 0 <= i < j < init.len() implies (#[trigger] init[i]).run_id
                    != (#[trigger] init[j]).run_id by {
                    assert(kills[i].run_id != kills[j].run_id);
                }
            }
            assert(distinct_runs(rest)) by {
                assert forall|i: int, j: int| 0 <= i < j < rest.len() implies (#[trigger] rest[i]).run_id
                    != (#[trigger] rest[j]).run_id by {
                    if j < init_rest.len() {
                        assert(rest[i] == init_rest[i]);
                        assert(rest[j] == init_rest[j]);
                    } else {
                        assert(rest[j] == last);
                        assert(rest[i] == init_rest[i]);
                        let id = init_rest[i].run_id;
                        assert(has_run(init, id));
                        let k = choose|k: int|
                            0 <= k < init.len() && #[trigger] init[k].run_id == id;
                        assert(kills[k].run_id != kills[kills.len() - 1].run_id);
                    }
                }
            }
            if has_run(kills, run_id) {
                if last.run_id == run_id {
                    if has_run(init, run_id) {
                        let k = choose|k: int|
                            0 <= k < init.len() && #[trigger] init[k].run_id == run_id;
                        assert(kills[k].run_id != kills[kills.len() - 1].run_id);
                    }
                } else {
                    let k = choose|k: int|
                        0 <= k < kills.len() && #[trigger] kills[k].run_id == run_id;
                    assert(init[k].run_id == run_id);
                }
            }
        }
    }
}

/// Counter and kill list move together. Start from the empty registry and
/// take any orderly sequence of operations. After each prefix, for a
/// counted mode, the counter exceeds the length of the kill list by the
/// number of counts that have been made and neither used for a listing
/// nor given back yet, and no two live runs share an id.
pub proof fn lemma_counter_tracks_list(ops: Seq<RegistryOp>, eid: Seq<char>, mode: RunMode, n: int)
    requires
        mode != RunMode::Daemon,
        orderly(ops, eid, mode),
        0 <= n <= ops.len(),
    ensures
        running(run_ops(Map::empty(), ops.take(n)), eid, mode) + listings(ops.take(n), eid, mode)
            + handbacks(ops.take(n), eid, mode) == kill_list(
            run_ops(Map::empty(), ops.take(n)),
            eid,
            mode,
        ).len() + admitted(Map::empty(), ops.take(n), eid, mode),
        distinct_runs(kill_list(run_ops(Map::empty(), ops.take(n)), eid, mode)),
    decreases n,
{
    let start = Map::<Seq<char>, ContextView>::empty();
    if n > 0 {
        let prefix = ops.take(n);
        let shorter = ops.take(n - 1);
        let op = ops[n - 1];
        assert(prefix.drop_last() =~= shorter);
        assert(prefix.last() == op);
        lemma_counter_tracks_list(ops, eid, mode, n - 1);
        let before = run_ops(start, shorter);
        let after = run_ops(start, prefix);
        assert(after == step(before, op));
        let list = kill_list(before, eid, mode);
        let list_after = kill_list(after, eid, mode);
        lemma_step_counter(before, op, eid, mode);
        assert(listings(shorter, eid, mode) + handbacks(shorter, eid, mode) <= admitted(
            start,
            shorter,
            eid,
            mode,
        ));
        assert(listings(prefix, eid, mode) + handbacks(prefix, eid, mode) <= admitted(
            start,
            prefix,
            eid,
            mode,
        ));
        match op {
            RegistryOp::GiveBack { .. } => {
                assert(list_after == list);
            },
            RegistryOp::CanExecute { .. } => {
                assert(list_after == list);
            },
            RegistryOp::Register { eid: e, mode: m, entry } => {
                if e == eid && m == mode {
                    assert(lists_run(ops[n - 1], eid, mode));
                    assert(!has_run(list, entry.run_id));
                    assert(list_after == list.push(entry));
                    assert forall|i: int, j: int| 0 <= i < j < list_after.len() implies (
                    #[trigger] list_after[i]).run_id != (#[trigger] list_after[j]).run_id by {
                        if j == list.len() {
                            assert(list[i].run_id != entry.run_id);
                        }
                    }
                } else {
                    assert(list_after == list);
                }
            },
            RegistryOp::End { eid: e, mode: m, run_id } => {
                if e == eid && m == mode && before.contains_key(eid) {
                    lemma_without_run_keeps(list, run_id);
                    assert(list_after == if has_run(list, run_id) {
                        without_run(list, run_id)
                    } else {
                        list
                    });
                } else {
                    assert(list_after == list);
                }
            },
        }
    } else {
        assert(ops.take(0) =~= Seq::<RegistryOp>::empty());
    }
}

/// Counter and kill list agree at quiescence. Start from the empty registry
/// and take any orderly sequence of operations after which every count
/// that has been made is used, for a listing or given back. Then, for a
/// counted mode, the job's counter is the length of its kill list.
pub proof fn lemma_quiescent_counter(ops: Seq<RegistryOp>, eid: Seq<char>, mode: RunMode)
    requires
        mode != RunMode::Daemon,
        orderly(ops, eid, mode),
        listings(ops, eid, mode) + handbacks(ops, eid, mode) == admitted(
            Map::empty(),
            ops,
            eid,
            mode,
        ),
    ensures
        running(run_ops(Map::empty(), ops), eid, mode) == kill_list(
            run_ops(Map::empty(), ops),
            eid,
            mode,
        ).len(),
{
    lemma_counter_tracks_list(ops, eid, mode, ops.len() as int);
    assert(ops.take(ops.len() as int) =~= ops);
}

/// No orphaned counts. Start from the empty registry and take any orderly
/// sequence of operations after which every count that has been made is
/// used and no run of the job and mode is live. Then, for a counted mode,
/// the job's counter is back at zero.
pub proof fn lemma_idle_counter(ops: Seq<RegistryOp>, eid: Seq<char>, mode: RunMode)
    requires
        mode != RunMode::Daemon,
        orderly(ops, eid, mode),
        listings(ops, eid, mode) + handbacks(ops, eid, mode) == admitted(
            Map::empty(),
            ops,
            eid,
            mode,
        ),
        kill_list(run_ops(Map::empty(), ops), eid, mode).len() == 0,
    ensures
        running(run_ops(Map::empty(), ops), eid, mode) == 0,
{
    lemma_quiescent_counter(ops, eid, mode);
}

} // verus!
