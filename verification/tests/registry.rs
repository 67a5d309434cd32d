use automate::error::ReactError;
use automate::job::{BaseJob, DispatchJobParams};
use automate::react::React;
use automate::registry::{KillEntry, RunningJobContext};
use automate::table::Table;
use automate::types::{JobAction, RunMode, ScheduleType};
use tokio::sync::mpsc::channel;
use tokio::sync::mpsc::error::TryRecvError;

fn job(eid: &str, max_parallel: Option<u32>) -> BaseJob {
    BaseJob {
        eid: eid.to_string(),
        cmd_name: "bash".to_string(),
        code: "echo hi".to_string(),
        args: vec!["-c".to_string()],
        work_dir: None,
        work_user: None,
        timeout: 30,
        max_retry: Some(1),
        max_parallel,
        read_code_from_stdin: false,
        upload_file: None,
        bundle_script: None,
    }
}

fn dispatch(eid: &str, action: JobAction, max_parallel: Option<u32>) -> DispatchJobParams {
    DispatchJobParams {
        base_job: job(eid, max_parallel),
        schedule_id: "sched-1".to_string(),
        instance_id: Some("ins-1".to_string()),
        run_id: "run-1".to_string(),
        is_sync: false,
        timer_expr: None,
        restart_interval: None,
        created_user: "alice".to_string(),
        action,
    }
}

fn react() -> React {
    React::new(
        "ns".to_string(),
        "10.0.0.1".to_string(),
        "10.0.0.1:aa".to_string(),
        "/tmp/out".to_string(),
    )
}

#[test]
fn counter_stops_at_the_cap() {
    let mut r = react();
    let d = dispatch("job-a", JobAction::Exec, Some(2));
    assert_eq!(r.can_execute(&d), Ok(()));
    assert_eq!(r.can_execute(&d), Ok(()));
    assert_eq!(
        r.can_execute(&d),
        Err(ReactError::MaxParallel { eid: "job-a".to_string(), max_parallel: 2 })
    );
    assert_eq!(r.running("job-a", RunMode::Once), 2);
    assert_eq!(r.running("job-a", RunMode::Timer), 0);
    assert_eq!(r.running("job-b", RunMode::Once), 0);
}

#[test]
fn cap_is_one_when_unset_or_zero() {
    for max_parallel in [None, Some(0), Some(1)] {
        let mut r = react();
        let d = dispatch("job-a", JobAction::Exec, max_parallel);
        assert_eq!(d.base_job.max_parallel(), 1);
        assert_eq!(r.can_execute(&d), Ok(()));
        assert_eq!(
            r.can_execute(&d),
            Err(ReactError::MaxParallel { eid: "job-a".to_string(), max_parallel: 1 })
        );
        assert_eq!(r.running("job-a", RunMode::Once), 1);
    }
}

#[test]
fn modes_are_counted_apart() {
    let mut r = react();
    let once = dispatch("job-a", JobAction::Exec, Some(1));
    let timer = dispatch("job-a", JobAction::StartTimer, Some(1));
    assert_eq!(r.can_execute(&once), Ok(()));
    assert_eq!(r.can_execute(&timer), Ok(()));
    assert!(r.can_execute(&once).is_err());
    assert!(r.can_execute(&timer).is_err());
    assert_eq!(r.running("job-a", RunMode::Once), 1);
    assert_eq!(r.running("job-a", RunMode::Timer), 1);
}

#[test]
fn can_execute_turns_other_actions_away() {
    for action in [
        JobAction::Kill,
        JobAction::StopTimer,
        JobAction::StartSupervising,
        JobAction::StopSupervising,
        JobAction::RestartSupervising,
    ] {
        let mut r = react();
        let d = dispatch("job-a", action, Some(2));
        assert_eq!(r.can_execute(&d), Err(ReactError::InvalidAction));
        assert_eq!(r.running("job-a", RunMode::Once), 0);
        assert_eq!(r.running("job-a", RunMode::Timer), 0);
    }
}

#[test]
fn run_ids_are_twenty_one_characters() {
    let mut r = react();
    let d = dispatch("job-a", JobAction::Exec, Some(2));
    let (tx1, _rx1) = channel::<()>(1);
    let (tx2, _rx2) = channel::<()>(1);
    let id1 = r.set_execute_context(&d, tx1).unwrap();
    let id2 = r.set_execute_context(&d, tx2).unwrap();
    assert_eq!(id1.chars().count(), 21);
    assert_eq!(id2.chars().count(), 21);
    assert_ne!(id1, id2);
    assert_ne!(id1, d.run_id);
}

#[test]
fn a_drawn_id_is_tested_against_the_live_runs() {
    let mut r = react();
    assert!(!r.is_listed("job-a", RunMode::Once, "taken"));
    let (tx, _rx) = channel::<()>(1);
    r.list_run("job-a", RunMode::Once, "taken".to_string(), tx);
    assert!(r.is_listed("job-a", RunMode::Once, "taken"));
    assert!(!r.is_listed("job-a", RunMode::Once, "free"));
    assert!(!r.is_listed("job-a", RunMode::Daemon, "taken"));
    assert_eq!(r.listed_runs("job-a", RunMode::Once), 1);
    assert_eq!(r.running("job-a", RunMode::Once), 0);
    let drawn = React::draw_run_ids();
    assert_eq!(drawn.len(), 4);
    for id in &drawn {
        assert_eq!(id.chars().count(), 21);
    }
    assert_eq!(r.first_unused("job-a", RunMode::Once, &drawn), Some(0));
    let mixed = vec!["taken".to_string(), "taken".to_string(), "free".to_string(), "other".to_string()];
    assert_eq!(r.first_unused("job-a", RunMode::Once, &mixed), Some(2));
    assert_eq!(r.first_unused("job-a", RunMode::Timer, &mixed), Some(0));
    assert_eq!(r.first_unused("job-b", RunMode::Once, &mixed), Some(0));
    assert_eq!(r.first_unused("job-a", RunMode::Once, &vec!["taken".to_string()]), None);
    assert_eq!(r.first_unused("job-a", RunMode::Once, &vec![]), None);
    assert_eq!(automate::registry::MAX_RUN_ID_DRAWS, 4);
    assert_eq!(automate::registry::RUN_ID_LENGTH, 21);
}

#[test]
fn a_run_is_registered_under_the_first_unused_id() {
    let mut r = react();
    let d = dispatch("job-a", JobAction::StartTimer, Some(3));
    let drawn = vec!["a".to_string(), "b".to_string()];
    let (tx1, _rx1) = channel::<()>(1);
    let (tx2, _rx2) = channel::<()>(1);
    let (tx3, _rx3) = channel::<()>(1);
    let (tx4, _rx4) = channel::<()>(1);
    assert_eq!(r.register_run(&d, tx1, &drawn), Ok("a".to_string()));
    assert_eq!(r.register_run(&d, tx2, &drawn), Ok("b".to_string()));
    assert_eq!(r.register_run(&d, tx3, &drawn), Err(ReactError::NoFreshRunId));
    assert_eq!(r.listed_runs("job-a", RunMode::Timer), 2);
    assert_eq!(
        r.register_run(&dispatch("job-a", JobAction::Kill, None), tx4, &drawn),
        Err(ReactError::InvalidAction)
    );
    let order = r.kill_job("job-a", ScheduleType::Timer).unwrap();
    assert_eq!(order[0].run_id, "a");
    assert_eq!(order[1].run_id, "b");
}

#[test]
fn a_count_can_be_given_back() {
    let mut r = react();
    let d = dispatch("job-a", JobAction::Exec, Some(2));
    r.give_back("job-a", RunMode::Once);
    assert_eq!(r.running("job-a", RunMode::Once), 0);
    r.can_execute(&d).unwrap();
    r.can_execute(&d).unwrap();
    let (tx, _rx) = channel::<()>(1);
    r.list_run("job-a", RunMode::Once, "x".to_string(), tx);
    r.give_back("job-a", RunMode::Once);
    assert_eq!(r.running("job-a", RunMode::Once), 1);
    assert_eq!(r.listed_runs("job-a", RunMode::Once), 1);
    r.give_back("job-a", RunMode::Timer);
    r.give_back("job-a", RunMode::Daemon);
    assert_eq!(r.running("job-a", RunMode::Once), 1);
    r.give_back("job-a", RunMode::Once);
    r.give_back("job-a", RunMode::Once);
    assert_eq!(r.running("job-a", RunMode::Once), 0);
    assert_eq!(r.can_execute(&d), Ok(()));
}

#[test]
fn listing_does_not_count() {
    let mut r = react();
    let d = dispatch("job-a", JobAction::StartTimer, Some(2));
    let (tx, _rx) = channel::<()>(1);
    r.set_execute_context(&d, tx).unwrap();
    assert_eq!(r.listed_runs("job-a", RunMode::Timer), 1);
    assert_eq!(r.running("job-a", RunMode::Timer), 0);
    assert_eq!(r.listed_runs("job-a", RunMode::Once), 0);
}

#[test]
fn listing_turns_other_actions_away() {
    for action in
        [JobAction::Kill, JobAction::StopTimer, JobAction::StopSupervising, JobAction::RestartSupervising]
    {
        let mut r = react();
        let d = dispatch("job-a", action, Some(2));
        let (tx, _rx) = channel::<()>(1);
        assert_eq!(r.set_execute_context(&d, tx), Err(ReactError::InvalidAction));
        assert_eq!(r.end_execute(&d), Err(ReactError::InvalidAction));
    }
}

#[test]
fn kill_signals_every_listed_run_in_order() {
    let mut r = react();
    let d = dispatch("job-a", JobAction::Exec, Some(2));
    let (tx1, mut rx1) = channel::<()>(1);
    let (tx2, mut rx2) = channel::<()>(1);
    let id1 = r.set_execute_context(&d, tx1).unwrap();
    let id2 = r.set_execute_context(&d, tx2).unwrap();
    let signals = r.kill_job("job-a", ScheduleType::Once).unwrap();
    assert_eq!(signals.len(), 2);
    assert_eq!(signals[0].run_id, id1);
    assert_eq!(signals[1].run_id, id2);
    assert!(signals[0].delivered);
    assert!(signals[1].delivered);
    assert_eq!(rx1.try_recv(), Ok(()));
    assert_eq!(rx2.try_recv(), Ok(()));
    assert_eq!(rx1.try_recv(), Err(TryRecvError::Empty));
    assert_eq!(r.listed_runs("job-a", RunMode::Once), 2);
}

#[test]
fn kill_goes_on_past_a_dropped_receiver() {
    let mut r = react();
    let d = dispatch("job-a", JobAction::StartTimer, Some(3));
    let (tx1, rx1) = channel::<()>(1);
    let (tx2, mut rx2) = channel::<()>(1);
    r.set_execute_context(&d, tx1).unwrap();
    r.set_execute_context(&d, tx2).unwrap();
    drop(rx1);
    let signals = r.kill_job("job-a", ScheduleType::Timer).unwrap();
    assert_eq!(signals.len(), 2);
    assert!(!signals[0].delivered);
    assert!(signals[1].delivered);
    assert_eq!(rx2.try_recv(), Ok(()));
}

#[test]
fn second_kill_finds_the_channel_full() {
    let mut r = react();
    let d = dispatch("job-a", JobAction::Exec, Some(1));
    let (tx, mut rx) = channel::<()>(1);
    r.set_execute_context(&d, tx).unwrap();
    assert!(r.kill_job("job-a", ScheduleType::Once).unwrap()[0].delivered);
    assert!(!r.kill_job("job-a", ScheduleType::Once).unwrap()[0].delivered);
    assert_eq!(rx.try_recv(), Ok(()));
    assert_eq!(rx.try_recv(), Err(TryRecvError::Empty));
}

#[test]
fn kill_of_an_unknown_job_signals_nothing() {
    let r = react();
    assert_eq!(r.kill_job("nobody", ScheduleType::Daemon), Ok(vec![]));
    assert_eq!(r.kill_job("nobody", ScheduleType::Flow), Err(ReactError::InvalidScheduleType));
}

#[test]
fn kill_picks_the_list_of_the_schedule_type() {
    let mut r = react();
    let (tx1, mut once_rx) = channel::<()>(1);
    let (tx2, mut timer_rx) = channel::<()>(1);
    let (tx3, mut daemon_rx) = channel::<()>(1);
    r.set_execute_context(&dispatch("job-a", JobAction::Exec, None), tx1).unwrap();
    r.set_execute_context(&dispatch("job-a", JobAction::StartTimer, None), tx2).unwrap();
    r.set_execute_context(&dispatch("job-a", JobAction::StartSupervising, None), tx3).unwrap();
    assert_eq!(r.kill_job("job-a", ScheduleType::Daemon).unwrap().len(), 1);
    assert_eq!(once_rx.try_recv(), Err(TryRecvError::Empty));
    assert_eq!(timer_rx.try_recv(), Err(TryRecvError::Empty));
    assert_eq!(daemon_rx.try_recv(), Ok(()));
}

#[test]
fn end_run_lowers_the_counter_and_drops_the_channel() {
    let mut r = react();
    let d = dispatch("job-a", JobAction::Exec, Some(2));
    let (tx1, mut rx1) = channel::<()>(1);
    let (tx2, _rx2) = channel::<()>(1);
    r.can_execute(&d).unwrap();
    let id1 = r.set_execute_context(&d, tx1).unwrap();
    r.can_execute(&d).unwrap();
    let id2 = r.set_execute_context(&d, tx2).unwrap();
    assert_eq!(r.running("job-a", RunMode::Once), 2);
    assert_eq!(r.listed_runs("job-a", RunMode::Once), 2);
    assert!(r.end_run("job-a", RunMode::Once, &id1));
    assert_eq!(r.running("job-a", RunMode::Once), 1);
    assert_eq!(r.listed_runs("job-a", RunMode::Once), 1);
    assert_eq!(rx1.try_recv(), Err(TryRecvError::Disconnected));
    let left = r.kill_job("job-a", ScheduleType::Once).unwrap();
    assert_eq!(left.len(), 1);
    assert_eq!(left[0].run_id, id2);
}

#[test]
fn ending_a_run_twice_lowers_the_counter_once() {
    let mut r = react();
    let d = dispatch("job-a", JobAction::Exec, Some(3));
    for _ in 0..3 {
        r.can_execute(&d).unwrap();
    }
    let (tx, _rx) = channel::<()>(1);
    let mut ended = dispatch("job-a", JobAction::Exec, Some(3));
    ended.run_id = r.set_execute_context(&d, tx).unwrap();
    assert_eq!(r.end_execute(&ended), Ok(true));
    assert_eq!(r.running("job-a", RunMode::Once), 2);
    assert_eq!(r.end_execute(&ended), Ok(false));
    assert_eq!(r.running("job-a", RunMode::Once), 2);
    assert_eq!(r.listed_runs("job-a", RunMode::Once), 0);
}

#[test]
fn ending_an_unknown_run_changes_nothing() {
    let mut r = react();
    let d = dispatch("job-a", JobAction::Exec, Some(2));
    assert_eq!(r.end_execute(&d), Ok(false));
    r.can_execute(&d).unwrap();
    assert_eq!(r.end_execute(&d), Ok(false));
    assert_eq!(r.running("job-a", RunMode::Once), 1);
    assert!(!r.end_run("job-b", RunMode::Timer, "run-1"));
}

#[test]
fn counter_does_not_go_below_zero() {
    let mut r = react();
    let d = dispatch("job-a", JobAction::Exec, Some(2));
    let (tx, _rx) = channel::<()>(1);
    let id = r.set_execute_context(&d, tx).unwrap();
    assert_eq!(r.running("job-a", RunMode::Once), 0);
    assert!(r.end_run("job-a", RunMode::Once, &id));
    assert_eq!(r.running("job-a", RunMode::Once), 0);
    assert_eq!(r.listed_runs("job-a", RunMode::Once), 0);
}

#[test]
fn counter_matches_the_list_when_runs_are_listed() {
    let mut r = react();
    let d = dispatch("job-a", JobAction::StartTimer, Some(4));
    let mut ids = Vec::new();
    for _ in 0..3 {
        r.can_execute(&d).unwrap();
        let (tx, _rx) = channel::<()>(1);
        ids.push(r.set_execute_context(&d, tx).unwrap());
        assert_eq!(r.running("job-a", RunMode::Timer) as usize, r.listed_runs("job-a", RunMode::Timer));
    }
    for id in ids {
        assert!(r.end_run("job-a", RunMode::Timer, &id));
        assert_eq!(r.running("job-a", RunMode::Timer) as usize, r.listed_runs("job-a", RunMode::Timer));
    }
    assert_eq!(r.running("job-a", RunMode::Timer), 0);
}

#[test]
fn daemons_are_listed_and_not_counted() {
    let mut r = react();
    let d = dispatch("job-a", JobAction::StartSupervising, Some(1));
    let (tx1, _rx1) = channel::<()>(1);
    let (tx2, _rx2) = channel::<()>(1);
    let id1 = r.set_execute_context(&d, tx1).unwrap();
    r.set_execute_context(&d, tx2).unwrap();
    assert_eq!(r.listed_runs("job-a", RunMode::Daemon), 2);
    assert_eq!(r.running("job-a", RunMode::Daemon), 0);
    assert!(r.end_run("job-a", RunMode::Daemon, &id1));
    assert_eq!(r.listed_runs("job-a", RunMode::Daemon), 1);
}

#[test]
fn context_record_on_its_own() {
    let ctx = RunningJobContext::new();
    assert_eq!(ctx.running(RunMode::Once), 0);
    let ctx = ctx.bump(RunMode::Once).bump(RunMode::Once).bump(RunMode::Timer).bump(RunMode::Daemon);
    let ctx = ctx.bump(RunMode::Once).lower(RunMode::Once).lower(RunMode::Daemon);
    assert_eq!(ctx.running(RunMode::Once), 2);
    assert_eq!(ctx.running(RunMode::Timer), 1);
    assert_eq!(ctx.running(RunMode::Daemon), 0);
    let (tx1, _rx1) = channel::<()>(1);
    let (tx2, _rx2) = channel::<()>(1);
    let (tx3, _rx3) = channel::<()>(1);
    let ctx = ctx
        .list(RunMode::Once, KillEntry { run_id: "a".to_string(), kill: tx1 })
        .list(RunMode::Once, KillEntry { run_id: "b".to_string(), kill: tx2 })
        .list(RunMode::Once, KillEntry { run_id: "a".to_string(), kill: tx3 });
    assert_eq!(ctx.listed_runs(RunMode::Once), 3);
    assert!(ctx.lists(RunMode::Once, "a"));
    assert!(ctx.lists(RunMode::Once, "b"));
    assert!(!ctx.lists(RunMode::Once, "c"));
    assert!(!ctx.lists(RunMode::Timer, "a"));
    let (ctx, found) = ctx.end(RunMode::Once, "a");
    assert!(found);
    assert!(!ctx.lists(RunMode::Once, "a"));
    assert_eq!(ctx.listed_runs(RunMode::Once), 1);
    assert_eq!(ctx.running(RunMode::Once), 1);
    assert_eq!(ctx.signal(RunMode::Once)[0].run_id, "b");
    let (ctx, found) = ctx.end(RunMode::Once, "a");
    assert!(!found);
    assert_eq!(ctx.running(RunMode::Once), 1);
}

#[test]
fn table_binds_each_key_once() {
    let mut t: Table<u32> = Table::new();
    assert_eq!(t.len(), 0);
    assert_eq!(t.insert("a".to_string(), 1), None);
    assert_eq!(t.insert("b".to_string(), 2), None);
    assert_eq!(t.insert("a".to_string(), 3), Some(1));
    assert_eq!(t.len(), 2);
    assert_eq!(t.get("a"), Some(&3));
    assert_eq!(t.get("b"), Some(&2));
    assert_eq!(t.get("c"), None);
    assert!(t.contains_key("b"));
    assert_eq!(t.remove("b"), Some(2));
    assert_eq!(t.remove("b"), None);
    assert!(!t.contains_key("b"));
    assert_eq!(t.len(), 1);
}
