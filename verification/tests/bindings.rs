use automate::job::{BaseJob, DispatchJobParams};
use automate::react::{React, SupervisorUpdate};
use automate::supervisor::SupervisorSignal;
use automate::types::JobAction;
use tokio::sync::mpsc::error::TryRecvError;
use tokio::sync::mpsc::unbounded_channel;
use uuid::Uuid;

fn supervised(eid: &str, code: &str) -> DispatchJobParams {
    DispatchJobParams {
        base_job: BaseJob {
            eid: eid.to_string(),
            cmd_name: "bash".to_string(),
            code: code.to_string(),
            args: vec![],
            work_dir: None,
            work_user: None,
            timeout: 30,
            max_retry: None,
            max_parallel: None,
            read_code_from_stdin: false,
            upload_file: None,
            bundle_script: None,
        },
        schedule_id: "sched-1".to_string(),
        instance_id: Some("ins-1".to_string()),
        run_id: "run-1".to_string(),
        is_sync: false,
        timer_expr: None,
        restart_interval: None,
        created_user: "alice".to_string(),
        action: JobAction::StartSupervising,
    }
}

fn kernel() -> React {
    React::new("ns".to_string(), "10.0.0.1".to_string(), "key".to_string(), "/out".to_string())
}

#[test]
fn identity_is_kept() {
    let r = kernel();
    assert_eq!(r.namespace(), "ns");
    assert_eq!(r.local_ip(), "10.0.0.1");
    assert_eq!(r.client_key(), "key");
    assert_eq!(r.output_dir(), "/out");
}

#[test]
fn a_second_schedule_replaces_the_first() {
    let mut r = kernel();
    let first = Uuid::from_u128(1);
    let second = Uuid::from_u128(2);
    assert!(!r.is_scheduled("job-a"));
    assert_eq!(r.add_job_schedule("job-a".to_string(), first), None);
    assert!(r.is_scheduled("job-a"));
    assert_eq!(r.add_job_schedule("job-a".to_string(), second), Some(first));
    assert_eq!(r.remove_job_schedule("job-a"), Some(second));
    assert_eq!(r.remove_job_schedule("job-a"), None);
    assert!(!r.is_scheduled("job-a"));
}

#[test]
fn schedules_of_different_jobs_live_side_by_side() {
    let mut r = kernel();
    assert_eq!(r.add_job_schedule("job-a".to_string(), Uuid::from_u128(1)), None);
    assert_eq!(r.add_job_schedule("job-b".to_string(), Uuid::from_u128(2)), None);
    assert_eq!(r.remove_job_schedule("job-a"), Some(Uuid::from_u128(1)));
    assert!(r.is_scheduled("job-b"));
}

#[test]
fn a_job_has_one_supervisor() {
    let mut r = kernel();
    let (tx1, mut rx1) = unbounded_channel::<SupervisorSignal>();
    let (tx2, mut rx2) = unbounded_channel::<SupervisorSignal>();
    assert!(!r.is_supervising(&"job-a".to_string()));
    assert_eq!(
        r.update_supervising("job-a".to_string(), supervised("job-a", "A"), tx1),
        SupervisorUpdate::Installed
    );
    assert!(r.is_supervising(&"job-a".to_string()));
    assert_eq!(rx1.try_recv(), Err(TryRecvError::Empty));
    assert_eq!(
        r.update_supervising("job-a".to_string(), supervised("job-a", "B"), tx2),
        SupervisorUpdate::Forwarded { taken: true }
    );
    assert_eq!(rx1.try_recv(), Ok(SupervisorSignal::UpdateOptions(supervised("job-a", "B"))));
    assert_eq!(rx2.try_recv(), Err(TryRecvError::Disconnected));
    assert!(r.is_supervising(&"job-a".to_string()));
}

#[test]
fn an_offer_to_a_supervisor_that_is_gone_is_not_taken() {
    let mut r = kernel();
    let (tx, rx) = unbounded_channel::<SupervisorSignal>();
    r.update_supervising("job-a".to_string(), supervised("job-a", "A"), tx);
    drop(rx);
    let (tx2, _rx2) = unbounded_channel::<SupervisorSignal>();
    assert_eq!(
        r.update_supervising("job-a".to_string(), supervised("job-a", "B"), tx2),
        SupervisorUpdate::Forwarded { taken: false }
    );
    assert_eq!(r.stop_supervising(&"job-a".to_string()), Some(false));
}

#[test]
fn signals_are_made_of_what_they_carry() {
    assert_eq!(
        SupervisorSignal::update(supervised("job-a", "B")),
        SupervisorSignal::UpdateOptions(supervised("job-a", "B"))
    );
    assert_eq!(SupervisorSignal::exit(), SupervisorSignal::Exit);
}

#[test]
fn stopping_sends_exit_and_unbinds() {
    let mut r = kernel();
    let (tx, mut rx) = unbounded_channel::<SupervisorSignal>();
    r.update_supervising("job-a".to_string(), supervised("job-a", "A"), tx);
    assert_eq!(r.stop_supervising(&"job-a".to_string()), Some(true));
    assert_eq!(rx.try_recv(), Ok(SupervisorSignal::Exit));
    assert_eq!(rx.try_recv(), Err(TryRecvError::Disconnected));
    assert!(!r.is_supervising(&"job-a".to_string()));
    assert_eq!(r.stop_supervising(&"job-a".to_string()), None);
}
