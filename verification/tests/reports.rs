use automate::error::ReactError;
use automate::job::{BaseJob, BundleScript, DispatchJobParams, UploadFile};
use automate::report::{BundleOutputParams, ExecOutput, UpdateJobParams, EXECUTOR_FAILURE_CODE};
use automate::types::{JobAction, RunStatus, ScheduleStatus, ScheduleType};

fn bundle_order() -> DispatchJobParams {
    DispatchJobParams {
        base_job: BaseJob {
            eid: "job-b".to_string(),
            cmd_name: "python".to_string(),
            code: "print(1)".to_string(),
            args: vec!["-u".to_string(), "main.py".to_string()],
            work_dir: Some("/srv".to_string()),
            work_user: Some("deploy".to_string()),
            timeout: 60,
            max_retry: Some(3),
            max_parallel: Some(4),
            read_code_from_stdin: true,
            upload_file: Some(UploadFile { filename: "data.bin".to_string(), data: Some(vec![9, 8, 7]) }),
            bundle_script: Some(vec![BundleScript {
                eid: "alpha".to_string(),
                cmd_name: "bash".to_string(),
                code: "echo 1".to_string(),
                args: vec!["-c".to_string()],
            }]),
        },
        schedule_id: "sched-9".to_string(),
        instance_id: Some("ins-3".to_string()),
        run_id: "run-5".to_string(),
        is_sync: true,
        timer_expr: None,
        restart_interval: None,
        created_user: "bob".to_string(),
        action: JobAction::Exec,
    }
}

fn expected_plain(d: &DispatchJobParams) -> UpdateJobParams {
    let mut job = d.base_job.clone();
    job.upload_file = Some(UploadFile { filename: "data.bin".to_string(), data: None });
    UpdateJobParams {
        base_job: job,
        schedule_id: "sched-9".to_string(),
        instance_id: "ins-3".to_string(),
        bind_ip: "10.1.1.1".to_string(),
        bind_namespace: "prod".to_string(),
        run_id: String::new(),
        created_user: "bob".to_string(),
        run_status: None,
        schedule_status: None,
        schedule_type: None,
        exit_code: None,
        exit_status: None,
        stdout: None,
        stderr: None,
        start_time: None,
        end_time: None,
        prev_time: None,
        next_time: None,
        bundle_output: None,
    }
}

#[test]
fn running_report_in_full() {
    let d = bundle_order();
    let report =
        UpdateJobParams::running("prod", "10.1.1.1", &d, ScheduleType::Timer, 100, Some(90), Some(110)).unwrap();
    let mut expected = expected_plain(&d);
    expected.run_status = Some(RunStatus::Running);
    expected.run_id = "run-5".to_string();
    expected.schedule_type = Some(ScheduleType::Timer);
    expected.start_time = Some(100);
    expected.prev_time = Some(90);
    expected.next_time = Some(110);
    assert_eq!(report, expected);
}

#[test]
fn stop_report_of_an_output() {
    let d = bundle_order();
    let scripts = vec![BundleOutputParams {
        eid: "alpha".to_string(),
        exit_code: Some(0),
        exit_status: None,
        stdout: Some("1".to_string()),
        stderr: None,
    }];
    let outcome = Ok(ExecOutput {
        exit_code: Some(3),
        exit_status: Some("exit status: 3".to_string()),
        stdout: Some("out".to_string()),
        stderr: Some("err".to_string()),
        bundle_output: Some(scripts.clone()),
    });
    let report = UpdateJobParams::stop("prod", "10.1.1.1", &d, ScheduleType::Once, 100, 250, &outcome).unwrap();
    let mut expected = expected_plain(&d);
    expected.run_status = Some(RunStatus::Stop);
    expected.run_id = "run-5".to_string();
    expected.schedule_type = Some(ScheduleType::Once);
    expected.start_time = Some(100);
    expected.end_time = Some(250);
    expected.exit_code = Some(3);
    expected.exit_status = Some("exit status: 3".to_string());
    expected.stdout = Some("out".to_string());
    expected.stderr = Some("err".to_string());
    expected.bundle_output = Some(scripts);
    assert_eq!(report, expected);
}

#[test]
fn stop_report_of_an_executor_error() {
    let d = bundle_order();
    let outcome = Err("failed to spawn".to_string());
    let report = UpdateJobParams::stop("prod", "10.1.1.1", &d, ScheduleType::Once, 100, 250, &outcome).unwrap();
    assert_eq!(EXECUTOR_FAILURE_CODE, 99);
    assert_eq!(report.exit_code, Some(99));
    assert_eq!(report.exit_status, Some("failed to spawn".to_string()));
    assert_eq!(report.stdout, Some("failed to spawn".to_string()));
    assert_eq!(report.stderr, Some("failed to spawn".to_string()));
    assert_eq!(report.bundle_output, Some(vec![]));
    assert_eq!(report.run_status, Some(RunStatus::Stop));
    assert_eq!(report.end_time, Some(250));

    let mut plain = bundle_order();
    plain.base_job.bundle_script = None;
    let report = UpdateJobParams::stop("prod", "10.1.1.1", &plain, ScheduleType::Once, 100, 250, &outcome).unwrap();
    assert_eq!(report.bundle_output, None);
    assert_eq!(report.exit_code, Some(99));
}

#[test]
fn schedule_report_in_full() {
    let d = bundle_order();
    let report = UpdateJobParams::schedule(
        "prod",
        "10.1.1.1",
        &d,
        ScheduleType::Daemon,
        ScheduleStatus::Supervising,
        None,
        None,
    )
    .unwrap();
    let mut expected = expected_plain(&d);
    expected.schedule_status = Some(ScheduleStatus::Supervising);
    expected.schedule_type = Some(ScheduleType::Daemon);
    assert_eq!(report, expected);
}

#[test]
fn no_report_without_an_instance() {
    let mut d = bundle_order();
    d.instance_id = None;
    assert_eq!(
        UpdateJobParams::running("prod", "10.1.1.1", &d, ScheduleType::Once, 1, None, None),
        Err(ReactError::MissingInstanceId)
    );
    assert_eq!(
        UpdateJobParams::stop("prod", "10.1.1.1", &d, ScheduleType::Once, 1, 2, &Err("x".to_string())),
        Err(ReactError::MissingInstanceId)
    );
    assert_eq!(
        UpdateJobParams::schedule(
            "prod",
            "10.1.1.1",
            &d,
            ScheduleType::Timer,
            ScheduleStatus::Unscheduled,
            None,
            None
        ),
        Err(ReactError::MissingInstanceId)
    );
}

#[test]
fn reports_for_a_named_instance() {
    let d = bundle_order();
    let opening = UpdateJobParams::running_for("ns", "ip", &d, "other", ScheduleType::Once, 5, None, None);
    let closing = UpdateJobParams::stop_for("ns", "ip", &d, "other", ScheduleType::Once, 5, 6, &Err("e".to_string()));
    assert_eq!(opening.instance_id, "other");
    assert_eq!(closing.instance_id, "other");
    assert_eq!(opening.run_id, closing.run_id);
    assert_eq!(opening.schedule_id, closing.schedule_id);
    assert_eq!(opening.start_time, closing.start_time);
}

#[test]
fn copies_are_equal_to_their_source() {
    let d = bundle_order();
    assert_eq!(d.copy(), d);
    assert_eq!(d.base_job.copy(), d.base_job);
    let pure = d.base_job.to_pure_job();
    assert_eq!(pure.upload_file, Some(UploadFile { filename: "data.bin".to_string(), data: None }));
    assert_eq!(pure.bundle_script, d.base_job.bundle_script);
    assert_eq!(pure.args, d.base_job.args);
    assert!(d.base_job.is_bundle());
    assert_eq!(d.base_job.max_parallel(), 4);
    let output = BundleOutputParams {
        eid: "s".to_string(),
        exit_code: Some(-1),
        exit_status: Some("x".to_string()),
        stdout: None,
        stderr: Some("e".to_string()),
    };
    assert_eq!(output.copy(), output);
    assert_eq!(automate::report::copy_bundle_outputs(&Some(vec![output.clone()])), Some(vec![output]));
    assert_eq!(automate::report::copy_bundle_outputs(&None), None);
    assert_eq!(automate::job::copy_bytes(&vec![0, 255, 7]), vec![0, 255, 7]);
}
