use automate::dispatch::{
    Dispatched, Handled, MsgReqKind, Running, RuntimeActionParams, KILL_CHANNEL_CAPACITY,
};
use automate::error::ReactError;
use automate::execution::{Execution, ExecutionPhase};
use automate::job::{BaseJob, DispatchJobParams, Interval, UploadFile};
use automate::react::React;
use automate::reply::{Reply, ReplyData, SyncOutput, FAILURE_CODE, SUCCESS_CODE};
use automate::report::{ExecOutput, UpdateJobParams};
use automate::scheduler::Scheduler;
use automate::supervisor::{
    Supervisor, SupervisorAction, SupervisorInput, SupervisorPhase, SupervisorSignal,
};
use automate::types::{JobAction, RunMode, RunStatus, RuntimeAction, ScheduleStatus, ScheduleType};
use tokio::sync::mpsc::error::TryRecvError;
use uuid::Uuid;

type Agent = Scheduler<()>;

fn order(eid: &str, action: JobAction) -> DispatchJobParams {
    DispatchJobParams {
        base_job: BaseJob {
            eid: eid.to_string(),
            cmd_name: "bash".to_string(),
            code: "exit 0".to_string(),
            args: vec!["-c".to_string()],
            work_dir: Some("/srv".to_string()),
            work_user: None,
            timeout: 30,
            max_retry: Some(1),
            max_parallel: Some(2),
            read_code_from_stdin: false,
            upload_file: None,
            bundle_script: None,
        },
        schedule_id: "sched-7".to_string(),
        instance_id: Some("ins-1".to_string()),
        run_id: "run-42".to_string(),
        is_sync: false,
        timer_expr: None,
        restart_interval: None,
        created_user: "alice".to_string(),
        action,
    }
}

fn state() -> React {
    React::new("prod".to_string(), "10.0.0.1".to_string(), "10.0.0.1:aa".to_string(), "/out".to_string())
}

fn fine() -> Result<ExecOutput, String> {
    Ok(ExecOutput {
        exit_code: Some(0),
        exit_status: Some("exit status: 0".to_string()),
        stdout: Some("done".to_string()),
        stderr: None,
        bundle_output: None,
    })
}

fn run_to_end(run: Running, react: &mut React, outcome: &Result<ExecOutput, String>) -> Vec<UpdateJobParams> {
    let mut execution = run.execution;
    let mut reports = Vec::new();
    reports.push(execution.begin("prod", "10.0.0.1", 1000, None, None).unwrap());
    reports.push(execution.complete("prod", "10.0.0.1", 2000, outcome).unwrap());
    assert!(execution.release(react));
    reports
}

#[test]
fn third_run_over_the_cap_is_refused() {
    let mut react = state();
    let first = Agent::exec(order("job-a", JobAction::Exec), &mut react).unwrap();
    let second = Agent::exec(order("job-a", JobAction::Exec), &mut react).unwrap();
    let third = Agent::handle(MsgReqKind::DispatchJobRequest(order("job-a", JobAction::Exec)), &mut react);
    let reply = Agent::reply(&third).unwrap();
    assert_eq!(reply.code, 50000);
    assert!(reply.msg.contains("max parallel"));
    assert_eq!(reply.msg, "job job-a is running, max parallel 2");
    assert_eq!(reply.data, None);
    assert_eq!(react.running("job-a", RunMode::Once), 2);
    let mut pairs = 0;
    for run in [first, second] {
        let reports = run_to_end(run, &mut react, &fine());
        assert_eq!(reports.len(), 2);
        assert_eq!(reports[0].run_status, Some(RunStatus::Running));
        assert_eq!(reports[1].run_status, Some(RunStatus::Stop));
        pairs += 1;
    }
    assert_eq!(pairs, 2);
    assert_eq!(react.running("job-a", RunMode::Once), 0);
    assert_eq!(react.listed_runs("job-a", RunMode::Once), 0);
    assert!(Agent::exec(order("job-a", JobAction::Exec), &mut react).is_ok());
}

#[test]
fn timer_fires_and_stops() {
    let mut react = state();
    let mut template = order("job-t", JobAction::StartTimer);
    template.timer_expr = Some("*/1 * * * * *".to_string());
    let asked = Agent::dispatch_job(template.copy(), &mut react).unwrap();
    match asked {
        Dispatched::Timer { timer_expr } => assert_eq!(timer_expr, "*/1 * * * * *"),
        _ => panic!("a timer was asked for"),
    }
    let handle = Uuid::from_u128(7);
    let started = Agent::start_timer(&template, &mut react, handle, Some(5000)).unwrap();
    assert_eq!(started.replaced, None);
    assert_eq!(started.report.schedule_status, Some(ScheduleStatus::Scheduling));
    assert_eq!(started.report.run_status, Some(RunStatus::Prepare));
    assert_eq!(started.report.schedule_type, Some(ScheduleType::Timer));
    assert_eq!(started.report.next_time, Some(5000));
    assert_eq!(started.report.run_id, "");
    assert!(react.is_scheduled("job-t"));

    let mut pairs = 0;
    let mut run_ids = Vec::new();
    for fire in 0..2i64 {
        let run = Agent::timer_fired(&template, &mut react).unwrap();
        assert_eq!(run.execution.mode(), RunMode::Timer);
        assert_eq!(run.execution.params().run_id.chars().count(), 21);
        run_ids.push(run.execution.params().run_id.clone());
        let mut execution = run.execution;
        let opening = execution.begin("prod", "10.0.0.1", 1000 * fire, Some(1000 * fire), Some(1000 * fire + 1000)).unwrap();
        let closing = execution.complete("prod", "10.0.0.1", 1000 * fire + 10, &fine()).unwrap();
        assert_eq!(opening.schedule_type, Some(ScheduleType::Timer));
        assert_eq!(closing.schedule_type, Some(ScheduleType::Timer));
        assert_eq!(opening.prev_time, Some(1000 * fire));
        assert_eq!(opening.next_time, Some(1000 * fire + 1000));
        assert_eq!(opening.run_id, closing.run_id);
        assert!(execution.release(&mut react));
        pairs += 1;
    }
    assert!(pairs >= 2);
    assert_ne!(run_ids[0], run_ids[1]);

    let mut stop = template.copy();
    stop.action = JobAction::StopTimer;
    let stopped = match Agent::dispatch_job(stop, &mut react).unwrap() {
        Dispatched::TimerStopped(stopped) => stopped,
        _ => panic!("the timer was to be stopped"),
    };
    assert_eq!(stopped.cancel, Some(handle));
    assert_eq!(stopped.report.schedule_status, Some(ScheduleStatus::Unscheduled));
    assert_eq!(stopped.report.run_status, None);
    assert_eq!(stopped.report.next_time, None);
    assert_eq!(stopped.report.schedule_type, Some(ScheduleType::Timer));
    assert!(!react.is_scheduled("job-t"));
}

#[test]
fn a_fire_over_the_cap_is_skipped() {
    let mut react = state();
    let mut template = order("job-t", JobAction::StartTimer);
    template.base_job.max_parallel = Some(1);
    let running = Agent::timer_fired(&template, &mut react).unwrap();
    assert!(Agent::timer_fired(&template, &mut react).is_none());
    assert_eq!(react.running("job-t", RunMode::Timer), 1);
    assert_eq!(react.listed_runs("job-t", RunMode::Timer), 1);
    assert!(running.execution.release(&mut react));
    assert!(Agent::timer_fired(&template, &mut react).is_some());
}

#[test]
fn stopping_a_timer_lets_its_runs_go_on() {
    let mut react = state();
    let template = order("job-t", JobAction::StartTimer);
    Agent::start_timer(&template, &mut react, Uuid::from_u128(1), None).unwrap();
    let run = Agent::timer_fired(&template, &mut react).unwrap();
    let mut stop = template.copy();
    stop.action = JobAction::StopTimer;
    Agent::stop_timer(&stop, &mut react).unwrap();
    assert_eq!(react.running("job-t", RunMode::Timer), 1);
    assert_eq!(react.listed_runs("job-t", RunMode::Timer), 1);
    assert!(run.execution.release(&mut react));
}

#[test]
fn supervised_job_restarts() {
    let mut react = state();
    let mut start = order("job-d", JobAction::StartSupervising);
    start.restart_interval = Some(Interval { secs: 1, nanos: 0 });
    let started = match Agent::dispatch_job(start, &mut react).unwrap() {
        Dispatched::Supervising(started) => started,
        _ => panic!("supervision was to start"),
    };
    assert_eq!(started.report.schedule_status, Some(ScheduleStatus::Supervising));
    assert_eq!(started.report.schedule_type, Some(ScheduleType::Daemon));
    let mut driver = started.driver.unwrap();
    let mut pairs = 0;
    for round in 0..3 {
        let run = Agent::wait_exec(driver.supervisor.current().copy(), &mut react).unwrap();
        assert!(run.wait);
        assert_eq!(run.execution.mode(), RunMode::Daemon);
        assert_eq!(run.execution.job().timeout, 0);
        let reports = run_to_end(run, &mut react, &fine());
        assert_eq!(reports[0].schedule_type, Some(ScheduleType::Daemon));
        assert_eq!(reports[1].exit_code, Some(0));
        pairs += 1;
        assert_eq!(
            driver.supervisor.step(SupervisorInput::ExecutionEnded),
            SupervisorAction::Rest(Interval { secs: 1, nanos: 0 })
        );
        if round < 2 {
            assert_eq!(driver.supervisor.step(SupervisorInput::RestElapsed), SupervisorAction::Execute);
        }
    }
    assert_eq!(pairs, 3);
    let stopped = match Agent::dispatch_job(order("job-d", JobAction::StopSupervising), &mut react).unwrap() {
        Dispatched::Unsupervised(stopped) => stopped,
        _ => panic!("supervision was to stop"),
    };
    assert!(stopped.stopped);
    assert_eq!(stopped.exit_taken, Some(true));
    assert_eq!(stopped.report.schedule_status, Some(ScheduleStatus::Unsupervised));
    assert_eq!(stopped.report.schedule_type, Some(ScheduleType::Daemon));
    assert_eq!(stopped.report.run_status, None);
    let signal = driver.inbox.try_recv().unwrap();
    assert_eq!(signal, SupervisorSignal::Exit);
    assert_eq!(driver.supervisor.step(SupervisorInput::Signal(signal)), SupervisorAction::Stop);
    assert_eq!(driver.supervisor.phase(), SupervisorPhase::Exited);
    assert_eq!(driver.supervisor.step(SupervisorInput::RestElapsed), SupervisorAction::Ignore);
    assert!(!react.is_supervising(&"job-d".to_string()));
}

#[test]
fn kill_reaches_a_one_shot_run() {
    let mut react = state();
    let mut run = Agent::exec(order("job-k", JobAction::Exec), &mut react).unwrap();
    assert!(!run.wait);
    let opening = run.execution.begin("prod", "10.0.0.1", 1000, None, None).unwrap();
    assert_eq!(run.kill_signal_rx.try_recv(), Err(TryRecvError::Empty));
    let killed = match Agent::dispatch_job(order("job-k", JobAction::Kill), &mut react).unwrap() {
        Dispatched::Killed(signals) => signals,
        _ => panic!("a kill was asked for"),
    };
    assert_eq!(killed.len(), 1);
    assert!(killed[0].delivered);
    assert_eq!(&killed[0].run_id, run.execution.listed_as());
    assert_eq!(run.kill_signal_rx.try_recv(), Ok(()));
    assert_eq!(run.kill_signal_rx.try_recv(), Err(TryRecvError::Empty));
    assert_eq!(react.listed_runs("job-k", RunMode::Once), 1);
    let closing = run.execution.complete("prod", "10.0.0.1", 1050, &Err("killed".to_string())).unwrap();
    assert_eq!(closing.run_status, Some(RunStatus::Stop));
    assert_eq!(closing.exit_code, Some(99));
    assert_eq!(closing.exit_status, Some("killed".to_string()));
    assert_eq!(closing.stdout, Some("killed".to_string()));
    assert_eq!(closing.stderr, Some("killed".to_string()));
    assert_eq!(closing.run_id, opening.run_id);
    assert!(run.execution.release(&mut react));
    assert_eq!(react.running("job-k", RunMode::Once), 0);
    assert_eq!(react.listed_runs("job-k", RunMode::Once), 0);
}

#[test]
fn supervisor_takes_new_options() {
    let mut react = state();
    let mut a = order("job-d", JobAction::StartSupervising);
    a.base_job.code = "run A".to_string();
    let mut b = order("job-d", JobAction::StartSupervising);
    b.base_job.code = "run B".to_string();
    let mut driver = Agent::start_supervising(a, &mut react).unwrap().driver.unwrap();
    assert_eq!(driver.supervisor.current().base_job.code, "run A");
    driver.supervisor.step(SupervisorInput::ExecutionEnded);
    driver.supervisor.step(SupervisorInput::RestElapsed);
    driver.supervisor.step(SupervisorInput::ExecutionEnded);
    let again = Agent::start_supervising(b.copy(), &mut react).unwrap();
    assert!(again.driver.is_none());
    assert_eq!(again.forwarded, Some(true));
    assert_eq!(again.report.schedule_status, Some(ScheduleStatus::Supervising));
    let signal = driver.inbox.try_recv().unwrap();
    assert_eq!(signal, SupervisorSignal::UpdateOptions(b));
    assert_eq!(driver.inbox.try_recv(), Err(TryRecvError::Empty));
    assert_eq!(driver.supervisor.step(SupervisorInput::Signal(signal)), SupervisorAction::Execute);
    assert_eq!(driver.supervisor.current().base_job.code, "run B");
    assert!(react.is_supervising(&"job-d".to_string()));
    assert_eq!(react.stop_supervising(&"job-d".to_string()), Some(true));
    assert_eq!(react.stop_supervising(&"job-d".to_string()), None);
}

#[test]
fn reconnect_dials_the_next_coordinator() {
    let mut agent: Scheduler<u8> = Scheduler::new(
        "prod".to_string(),
        vec!["ws://c1".to_string(), "ws://c2".to_string(), "ws://c3".to_string()],
        "secret".to_string(),
        "/out".to_string(),
        "10.0.0.1".to_string(),
        "aa:bb".to_string(),
        None,
        None,
    );
    let mut react = agent.react();
    let first = agent.get_comet_addr();
    agent.connected(1);
    let run = Agent::exec(order("job-a", JobAction::Exec), &mut react).unwrap();
    assert_eq!(agent.take_client(), Some(1));
    assert_eq!(agent.take_client(), None);
    assert_eq!(automate::scheduler::RECONNECT_DELAY_SECS, 1);
    let second = agent.get_comet_addr();
    assert_eq!(first, "ws://c3");
    assert_eq!(second, "ws://c2");
    agent.connected(2);
    assert!(agent.is_initialized());
    assert_eq!(automate::scheduler::HEARTBEAT_PERIOD_SECS, 60);
    assert_eq!(agent.heartbeat().source_ip, "10.0.0.1");
    assert_eq!(react.running("job-a", RunMode::Once), 1);
    assert_eq!(react.listed_runs("job-a", RunMode::Once), 1);
    assert_eq!(run.execution.phase(), ExecutionPhase::Listed);
}

#[test]
fn sync_exec_is_answered_with_its_output() {
    let mut react = state();
    let mut d = order("job-a", JobAction::Exec);
    d.is_sync = true;
    let handled = Agent::handle(MsgReqKind::DispatchJobRequest(d), &mut react);
    assert_eq!(Agent::reply(&handled), None);
    let run = match handled.unwrap() {
        Handled::Dispatch(Dispatched::Run(run)) => run,
        _ => panic!("an execution was to start"),
    };
    assert!(run.wait);
    let outcome = fine();
    run_to_end(run, &mut react, &outcome);
    let reply = Reply::of_outcome(&outcome);
    assert_eq!(
        reply,
        Reply {
            code: 20000,
            msg: "success".to_string(),
            data: Some(ReplyData::Output(SyncOutput {
                stdout: Some("done".to_string()),
                exit_code: Some(0),
                stderr: None,
            })),
        }
    );
    assert!(reply.is_success());
    let failed = Reply::of_outcome(&Err("spawn failed".to_string()));
    assert_eq!(failed, Reply { code: 50000, msg: "spawn failed".to_string(), data: None });
    assert!(!failed.is_success());
    assert_eq!(SUCCESS_CODE, 20000);
    assert_eq!(FAILURE_CODE, 50000);
}

#[test]
fn answers_of_other_services_carry_json_text() {
    let reply = Reply::success(Some(ReplyData::Json("[1,2]".to_string())));
    assert_eq!(reply.code, 20000);
    assert_eq!(reply.msg, "success");
    assert_eq!(reply.data, Some(ReplyData::Json("[1,2]".to_string())));
}

#[test]
fn each_run_is_listed_under_an_id_of_its_own() {
    let mut react = state();
    let a = Agent::exec(order("job-a", JobAction::Exec), &mut react).unwrap();
    let b = Agent::exec(order("job-a", JobAction::Exec), &mut react).unwrap();
    assert_ne!(a.execution.listed_as(), b.execution.listed_as());
    assert!(react.is_listed("job-a", RunMode::Once, a.execution.listed_as()));
    assert!(react.is_listed("job-a", RunMode::Once, b.execution.listed_as()));
    assert!(!react.is_listed("job-a", RunMode::Timer, a.execution.listed_as()));
    assert!(!react.is_listed("job-b", RunMode::Once, a.execution.listed_as()));
    let id = a.execution.listed_as().clone();
    assert!(a.execution.release(&mut react));
    assert!(!react.is_listed("job-a", RunMode::Once, &id));
}

#[test]
fn async_requests_are_answered_at_once() {
    let mut react = state();
    let handled = Agent::handle(MsgReqKind::DispatchJobRequest(order("job-a", JobAction::Exec)), &mut react);
    assert_eq!(
        Agent::reply(&handled),
        Some(Reply { code: 20000, msg: "success".to_string(), data: None })
    );
    let handled = Agent::handle(MsgReqKind::DispatchJobRequest(order("job-a", JobAction::Kill)), &mut react);
    assert_eq!(Agent::reply(&handled), Some(Reply::success(None)));
    assert_eq!(Reply::failure("no".to_string()).code, 50000);
}

#[test]
fn a_dispatch_without_an_instance_is_turned_away() {
    for action in [
        JobAction::Exec,
        JobAction::StartTimer,
        JobAction::StopTimer,
        JobAction::StartSupervising,
        JobAction::StopSupervising,
        JobAction::RestartSupervising,
    ] {
        let mut react = state();
        let mut d = order("job-a", action);
        d.instance_id = None;
        let handled = Agent::handle(MsgReqKind::DispatchJobRequest(d), &mut react);
        match &handled {
            Err(e) => assert_eq!(e, &ReactError::MissingInstanceId),
            Ok(_) => panic!("the dispatch names no instance"),
        }
        let reply = Agent::reply(&handled).unwrap();
        assert_eq!(reply.code, 50000);
        assert_eq!(reply.msg, "not found instance_id in params");
        assert_eq!(react.running("job-a", RunMode::Once), 0);
        assert_eq!(react.listed_runs("job-a", RunMode::Once), 0);
    }
}

#[test]
fn the_cap_is_told_before_the_missing_instance() {
    let mut react = state();
    let mut d = order("job-a", JobAction::Exec);
    d.base_job.max_parallel = Some(1);
    Agent::exec(d.copy(), &mut react).unwrap();
    d.instance_id = None;
    match Agent::exec(d, &mut react) {
        Err(e) => {
            assert_eq!(e, ReactError::MaxParallel { eid: "job-a".to_string(), max_parallel: 1 });
            assert!(e.message().contains("max parallel"));
        }
        Ok(_) => panic!("the job is at its cap"),
    }
    assert_eq!(react.running("job-a", RunMode::Once), 1);
    assert_eq!(react.listed_runs("job-a", RunMode::Once), 1);
}

#[test]
fn an_execution_takes_the_first_drawn_id_that_is_unused() {
    let mut react = state();
    let drawn = vec!["one".to_string(), "two".to_string(), "three".to_string()];
    let (tx, _rx) = tokio::sync::mpsc::channel::<()>(KILL_CHANNEL_CAPACITY);
    let first = Execution::enter_with(&mut react, order("job-a", JobAction::Exec), tx, &drawn).unwrap();
    assert_eq!(first.listed_as(), "one");
    let (tx, _rx) = tokio::sync::mpsc::channel::<()>(KILL_CHANNEL_CAPACITY);
    let second = Execution::enter_with(&mut react, order("job-a", JobAction::Exec), tx, &drawn).unwrap();
    assert_eq!(second.listed_as(), "two");
    assert_eq!(react.running("job-a", RunMode::Once), 2);
    assert!(first.release(&mut react));
    let mut wide = order("job-a", JobAction::Exec);
    wide.base_job.max_parallel = Some(5);
    let (tx, _rx) = tokio::sync::mpsc::channel::<()>(KILL_CHANNEL_CAPACITY);
    let third = Execution::enter_with(&mut react, wide.copy(), tx, &drawn).unwrap();
    assert_eq!(third.listed_as(), "one");
    let taken = vec!["one".to_string(), "two".to_string()];
    let (tx, _rx) = tokio::sync::mpsc::channel::<()>(KILL_CHANNEL_CAPACITY);
    match Execution::enter_with(&mut react, wide.copy(), tx, &taken) {
        Err(e) => assert_eq!(e, ReactError::NoFreshRunId),
        Ok(_) => panic!("every drawn id is taken"),
    }
    assert_eq!(react.running("job-a", RunMode::Once), 2);
    assert_eq!(react.listed_runs("job-a", RunMode::Once), 2);
    let (tx, _rx) = tokio::sync::mpsc::channel::<()>(KILL_CHANNEL_CAPACITY);
    match Execution::enter_with(&mut react, order("job-a", JobAction::Exec), tx, &drawn) {
        Err(e) => assert_eq!(e, ReactError::MaxParallel { eid: "job-a".to_string(), max_parallel: 2 }),
        Ok(_) => panic!("the job is at its cap"),
    }
    let (tx, _rx) = tokio::sync::mpsc::channel::<()>(KILL_CHANNEL_CAPACITY);
    let daemon = Execution::enter_with(&mut react, order("job-a", JobAction::StartSupervising), tx, &taken)
        .unwrap();
    assert_eq!(daemon.listed_as(), "one");
    assert_eq!(daemon.mode(), RunMode::Daemon);
}

#[test]
fn a_second_run_under_the_cap_is_let_in() {
    let mut react = state();
    let first = Agent::exec(order("job-a", JobAction::Exec), &mut react).unwrap();
    let second = Agent::exec(order("job-a", JobAction::Exec), &mut react).unwrap();
    assert_ne!(first.execution.listed_as(), second.execution.listed_as());
    assert_eq!(react.running("job-a", RunMode::Once), 2);
    let a = Agent::wait_exec(order("job-d", JobAction::StartSupervising), &mut react).unwrap();
    let b = Agent::wait_exec(order("job-d", JobAction::StartSupervising), &mut react).unwrap();
    assert_ne!(a.execution.listed_as(), b.execution.listed_as());
    assert_eq!(react.listed_runs("job-d", RunMode::Daemon), 2);
}

#[test]
fn execution_needs_an_action_that_runs() {
    let mut react = state();
    let (tx, _rx) = tokio::sync::mpsc::channel::<()>(KILL_CHANNEL_CAPACITY);
    match Execution::enter(&mut react, order("job-a", JobAction::Kill), tx) {
        Err(e) => assert_eq!(e, ReactError::InvalidAction),
        Ok(_) => panic!("a kill runs nothing"),
    }
    assert_eq!(react.listed_runs("job-a", RunMode::Once), 0);
}

#[test]
fn events_out_of_turn_report_nothing() {
    let mut react = state();
    let mut execution = Agent::exec(order("job-a", JobAction::Exec), &mut react).unwrap().execution;
    assert_eq!(execution.phase(), ExecutionPhase::Listed);
    assert_eq!(execution.complete("prod", "10.0.0.1", 5, &fine()), None);
    assert_eq!(execution.phase(), ExecutionPhase::Listed);
    assert!(execution.begin("prod", "10.0.0.1", 10, None, None).is_some());
    assert_eq!(execution.phase(), ExecutionPhase::Running { start_time: 10 });
    assert_eq!(execution.begin("prod", "10.0.0.1", 11, None, None), None);
    let closing = execution.complete("prod", "10.0.0.1", 20, &fine()).unwrap();
    assert_eq!(closing.start_time, Some(10));
    assert_eq!(closing.end_time, Some(20));
    assert_eq!(execution.phase(), ExecutionPhase::Finished);
    assert_eq!(execution.complete("prod", "10.0.0.1", 30, &fine()), None);
    assert_eq!(execution.begin("prod", "10.0.0.1", 31, None, None), None);
    assert!(execution.release(&mut react));
}

#[test]
fn release_frees_the_place_in_any_phase() {
    let mut react = state();
    let listed = Agent::exec(order("job-a", JobAction::Exec), &mut react).unwrap().execution;
    let mut running = Agent::exec(order("job-a", JobAction::Exec), &mut react).unwrap().execution;
    running.begin("prod", "10.0.0.1", 1, None, None);
    assert_eq!(react.running("job-a", RunMode::Once), 2);
    assert!(listed.release(&mut react));
    assert!(running.release(&mut react));
    assert_eq!(react.running("job-a", RunMode::Once), 0);
    assert_eq!(react.listed_runs("job-a", RunMode::Once), 0);
}

#[test]
fn reports_keep_the_run_id_of_the_dispatch() {
    let mut react = state();
    let run = Agent::exec(order("job-a", JobAction::Exec), &mut react).unwrap();
    assert_ne!(run.execution.listed_as(), "run-42");
    let reports = run_to_end(run, &mut react, &fine());
    for report in &reports {
        assert_eq!(report.run_id, "run-42");
        assert_eq!(report.schedule_id, "sched-7");
        assert_eq!(report.instance_id, "ins-1");
        assert_eq!(report.bind_namespace, "prod");
        assert_eq!(report.bind_ip, "10.0.0.1");
        assert_eq!(report.created_user, "alice");
        assert_eq!(report.schedule_type, Some(ScheduleType::Once));
    }
}

#[test]
fn restart_puts_a_new_supervisor_in_place() {
    let mut react = state();
    let mut old = Agent::start_supervising(order("job-d", JobAction::StartSupervising), &mut react)
        .unwrap()
        .driver
        .unwrap();
    let live = Agent::wait_exec(order("job-d", JobAction::StartSupervising), &mut react).unwrap();
    let mut live_rx = live.kill_signal_rx;
    let done = Agent::dispatch_job(order("job-d", JobAction::RestartSupervising), &mut react).unwrap();
    let (stopped, started) = match done {
        Dispatched::Resupervised(stopped, started) => (stopped, started),
        _ => panic!("supervision was to restart"),
    };
    assert!(stopped.stopped);
    assert_eq!(stopped.signals.len(), 1);
    assert!(stopped.signals[0].delivered);
    assert_eq!(live_rx.try_recv(), Ok(()));
    assert_eq!(old.inbox.try_recv(), Ok(SupervisorSignal::Exit));
    assert!(started.driver.is_some());
    assert_eq!(stopped.report.schedule_status, Some(ScheduleStatus::Unsupervised));
    assert_eq!(started.report.schedule_status, Some(ScheduleStatus::Supervising));
    assert!(react.is_supervising(&"job-d".to_string()));
}

#[test]
fn stop_supervising_removes_the_supervisor_even_without_an_instance() {
    let mut react = state();
    Agent::start_supervising(order("job-d", JobAction::StartSupervising), &mut react).unwrap();
    let mut stop = order("job-d", JobAction::StopSupervising);
    stop.instance_id = None;
    assert!(Agent::stop_supervising(&stop, &mut react).is_err());
    assert!(!react.is_supervising(&"job-d".to_string()));
}

#[test]
fn runtime_requests() {
    let mut react = state();
    Agent::start_timer(&order("job-a", JobAction::StartTimer), &mut react, Uuid::from_u128(9), None).unwrap();
    Agent::start_supervising(order("job-a", JobAction::StartSupervising), &mut react).unwrap();
    let mut run = Agent::exec(order("job-a", JobAction::Exec), &mut react).unwrap();

    let effect = Agent::runtime_action(RuntimeAction::Kill, &"job-a".to_string(), &mut react);
    assert_eq!(effect.signals.len(), 1);
    assert_eq!(effect.cancel, None);
    assert!(!effect.stopped);
    assert_eq!(run.kill_signal_rx.try_recv(), Ok(()));

    let effect = Agent::runtime_action(RuntimeAction::StopTimer, &"job-a".to_string(), &mut react);
    assert_eq!(effect.cancel, Some(Uuid::from_u128(9)));
    assert!(effect.signals.is_empty());
    assert!(!react.is_scheduled("job-a"));

    let handled = Agent::handle(
        MsgReqKind::RuntimeActionRequest(RuntimeActionParams {
            action: RuntimeAction::StopSupervising,
            eid: "job-a".to_string(),
        }),
        &mut react,
    );
    match handled.as_ref().unwrap() {
        Handled::Runtime(effect) => assert!(effect.stopped),
        _ => panic!("a runtime request was handled"),
    }
    assert_eq!(Agent::reply(&handled), Some(Reply::success(None)));
    assert!(!react.is_supervising(&"job-a".to_string()));
}

#[test]
fn uploads_are_staged_for_runs_and_timers() {
    let mut d = order("job-a", JobAction::Exec);
    assert_eq!(Agent::upload_to_stage(&d), None);
    let file = UploadFile { filename: "a.tar".to_string(), data: Some(vec![1, 2, 3]) };
    d.base_job.upload_file = Some(file.clone());
    assert_eq!(Agent::upload_to_stage(&d), Some(&file));
    d.action = JobAction::StartTimer;
    assert_eq!(Agent::upload_to_stage(&d), Some(&file));
    for action in [
        JobAction::Kill,
        JobAction::StopTimer,
        JobAction::StartSupervising,
        JobAction::StopSupervising,
        JobAction::RestartSupervising,
    ] {
        d.action = action;
        assert_eq!(Agent::upload_to_stage(&d), None);
    }
}

#[test]
fn timer_expression_defaults_to_empty() {
    let mut d = order("job-a", JobAction::StartTimer);
    assert_eq!(Agent::timer_expr(&d), Ok(String::new()));
    d.timer_expr = Some("0 0 * * * *".to_string());
    assert_eq!(Agent::timer_expr(&d), Ok("0 0 * * * *".to_string()));
    d.instance_id = None;
    assert_eq!(Agent::timer_expr(&d), Err(ReactError::MissingInstanceId));
}

#[test]
fn supervisor_rests_one_second_by_default() {
    for (interval, expected) in [
        (None, Interval { secs: 1, nanos: 0 }),
        (Some(Interval { secs: 0, nanos: 0 }), Interval { secs: 1, nanos: 0 }),
        (Some(Interval { secs: 0, nanos: 500_000_000 }), Interval { secs: 0, nanos: 500_000_000 }),
        (Some(Interval { secs: 30, nanos: 0 }), Interval { secs: 30, nanos: 0 }),
    ] {
        let mut d = order("job-d", JobAction::StartSupervising);
        d.restart_interval = interval;
        let mut supervisor = Supervisor::new(d);
        assert_eq!(supervisor.rest(), expected);
        assert_eq!(supervisor.phase(), SupervisorPhase::Executing);
        assert_eq!(supervisor.step(SupervisorInput::ExecutionEnded), SupervisorAction::Rest(expected));
        assert_eq!(supervisor.phase(), SupervisorPhase::Resting);
    }
}

#[test]
fn supervisor_ignores_what_comes_out_of_turn() {
    let mut supervisor = Supervisor::new(order("job-d", JobAction::StartSupervising));
    assert_eq!(supervisor.step(SupervisorInput::RestElapsed), SupervisorAction::Ignore);
    assert_eq!(
        supervisor.step(SupervisorInput::Signal(SupervisorSignal::Exit)),
        SupervisorAction::Ignore
    );
    assert_eq!(supervisor.phase(), SupervisorPhase::Executing);
    supervisor.step(SupervisorInput::ExecutionEnded);
    assert_eq!(supervisor.step(SupervisorInput::ExecutionEnded), SupervisorAction::Ignore);
    assert_eq!(supervisor.phase(), SupervisorPhase::Resting);
}
