//! Lifecycle reports: what the agent tells the coordinator about a
//! schedule and about each execution.

use vstd::prelude::*;
use crate::error::{ErrorView, ReactError};
use crate::job::{pure_job, BaseJob, BaseJobView, DispatchJobParams, DispatchView, Timestamp};
use crate::text::{copy_opt_text, opt_text};
use crate::types::{RunStatus, ScheduleStatus, ScheduleType};

verus! {

/// The exit code that a report carries when the executor itself failed.
pub const EXECUTOR_FAILURE_CODE: i32 = 99;

/// What one script of a bundle gave.
#[derive(Clone, Debug, PartialEq, Eq)]
pub struct BundleOutputParams {
    pub eid: String,
    pub exit_code: Option<i32>,
    pub exit_status: Option<String>,
    pub stdout: Option<String>,
    pub stderr: Option<String>,
}

/// The model of a [`BundleOutputParams`].
#[verifier::ext_equal]
pub struct BundleOutputView {
    pub eid: Seq<char>,
    pub exit_code: Option<i32>,
    pub exit_status: Option<Seq<char>>,
    pub stdout: Option<Seq<char>>,
    pub stderr: Option<Seq<char>>,
}

impl View for BundleOutputParams {
    type V = BundleOutputView;

    open spec fn view(&self) -> BundleOutputView {
        BundleOutputView {
            eid: self.eid@,
            exit_code: self.exit_code,
            exit_status: opt_text(self.exit_status),
            stdout: opt_text(self.stdout),
            stderr: opt_text(self.stderr),
        }
    }
}

/// The models of a list of script outputs.
pub open spec fn bundle_outputs(v: Seq<BundleOutputParams>) -> Seq<BundleOutputView> {
    Seq::new(v.len(), |i: int| v[i]@)
}

/// The model of an optional list of script outputs.
pub open spec fn opt_bundle_outputs(o: Option<Vec<BundleOutputParams>>) -> Option<
    Seq<BundleOutputView>,
> {
    match o {
        Some(v) => Some(bundle_outputs(v@)),
        None => None,
    }
}

impl BundleOutputParams {
    /// A copy of the output.
    pub fn copy(&self) -> (out: BundleOutputParams)
        ensures
            out@ == self@,
    {
        BundleOutputParams {
            eid: self.eid.clone(),
            exit_code: self.exit_code,
            exit_status: copy_opt_text(&self.exit_status),
            stdout: copy_opt_text(&self.stdout),
            stderr: copy_opt_text(&self.stderr),
        }
    }
}

/// A copy of an optional list of script outputs.
pub fn copy_bundle_outputs(o: &Option<Vec<BundleOutputParams>>) -> (out: Option<
    Vec<BundleOutputParams>,
>)
    ensures
        opt_bundle_outputs(out) == opt_bundle_outputs(*o),
{
    match o {
        Some(v) => {
            let mut out: Vec<BundleOutputParams> = Vec::new();
            let mut i: usize = 0;
            while i < v.len()
                invariant
                    i <= v@.len(),
                    out@.len() == i,
                    forall|j: int| 0 <= j < i ==> out@[j]@ == v@[j]@,
                decreases v@.len() - i,
            {
                out.push(v[i].copy());
                i += 1;
            }
            assert(bundle_outputs(out@) =~= bundle_outputs(v@));
            Some(out)
        },
        None => None,
    }
}

/// What the executor hands back when a job has run to its end.
#[derive(Clone, Debug, PartialEq, Eq)]
pub struct ExecOutput {
    pub exit_code: Option<i32>,
    pub exit_status: Option<String>,
    pub stdout: Option<String>,
    pub stderr: Option<String>,
    pub bundle_output: Option<Vec<BundleOutputParams>>,
}

/// The model of an [`ExecOutput`].
#[verifier::ext_equal]
pub struct ExecOutputView {
    pub exit_code: Option<i32>,
    pub exit_status: Option<Seq<char>>,
    pub stdout: Option<Seq<char>>,
    pub stderr: Option<Seq<char>>,
    pub bundle_output: Option<Seq<BundleOutputView>>,
}

impl View for ExecOutput {
    type V = ExecOutputView;

    open spec fn view(&self) -> ExecOutputView {
        ExecOutputView {
            exit_code: self.exit_code,
            exit_status: opt_text(self.exit_status),
            stdout: opt_text(self.stdout),
            stderr: opt_text(self.stderr),
            bundle_output: opt_bundle_outputs(self.bundle_output),
        }
    }
}

/// How an execution ended: with the executor's output, or with the text of
/// the error that kept the executor from giving one.
pub open spec fn outcome_view(outcome: Result<ExecOutput, String>) -> Result<
    ExecOutputView,
    Seq<char>,
> {
    match outcome {
        Ok(output) => Ok(output@),
        Err(text) => Err(text@),
    }
}

/// A lifecycle report.
#[derive(Clone, Debug, PartialEq, Eq)]
pub struct UpdateJobParams {
    pub base_job: BaseJob,
    pub schedule_id: String,
    pub instance_id: String,
    pub bind_ip: String,
    pub bind_namespace: String,
    pub run_id: String,
    pub created_user: String,
    pub run_status: Option<RunStatus>,
    pub schedule_status: Option<ScheduleStatus>,
    pub schedule_type: Option<ScheduleType>,
    pub exit_code: Option<i32>,
    pub exit_status: Option<String>,
    pub stdout: Option<String>,
    pub stderr: Option<String>,
    pub start_time: Option<Timestamp>,
    pub end_time: Option<Timestamp>,
    pub prev_time: Option<Timestamp>,
    pub next_time: Option<Timestamp>,
    pub bundle_output: Option<Vec<BundleOutputParams>>,
}

/// The model of an [`UpdateJobParams`].
#[verifier::ext_equal]
pub struct ReportView {
    pub base_job: BaseJobView,
    pub schedule_id: Seq<char>,
    pub instance_id: Seq<char>,
    pub bind_ip: Seq<char>,
    pub bind_namespace: Seq<char>,
    pub run_id: Seq<char>,
    pub created_user: Seq<char>,
    pub run_status: Option<RunStatus>,
    pub schedule_status: Option<ScheduleStatus>,
    pub schedule_type: Option<ScheduleType>,
    pub exit_code: Option<i32>,
    pub exit_status: Option<Seq<char>>,
    pub stdout: Option<Seq<char>>,
    pub stderr: Option<Seq<char>>,
    pub start_time: Option<Timestamp>,
    pub end_time: Option<Timestamp>,
    pub prev_time: Option<Timestamp>,
    pub next_time: Option<Timestamp>,
    pub bundle_output: Option<Seq<BundleOutputView>>,
}

impl View for UpdateJobParams {
    type V = ReportView;

    open spec fn view(&self) -> ReportView {
        ReportView {
            base_job: self.base_job@,
            schedule_id: self.schedule_id@,
            instance_id: self.instance_id@,
            bind_ip: self.bind_ip@,
            bind_namespace: self.bind_namespace@,
            run_id: self.run_id@,
            created_user: self.created_user@,
            run_status: self.run_status,
            schedule_status: self.schedule_status,
            schedule_type: self.schedule_type,
            exit_code: self.exit_code,
            exit_status: opt_text(self.exit_status),
            stdout: opt_text(self.stdout),
            stderr: opt_text(self.stderr),
            start_time: self.start_time,
            end_time: self.end_time,
            prev_time: self.prev_time,
            next_time: self.next_time,
            bundle_output: opt_bundle_outputs(self.bundle_output),
        }
    }
}

/// Where a report comes from: the agent's namespace and address.
#[verifier::ext_equal]
pub struct Origin {
    pub namespace: Seq<char>,
    pub ip: Seq<char>,
}

/// The part that every report of a dispatch shares: the job without its
/// uploaded bytes, the ids of the schedule and of the instance, the agent's
/// namespace and address and the user. Everything else is unset, and the
/// run id is empty.
pub open spec fn plain_report(from: Origin, d: DispatchView, instance_id: Seq<char>) -> ReportView {
    ReportView {
        base_job: pure_job(d.base_job),
        schedule_id: d.schedule_id,
        instance_id,
        bind_ip: from.ip,
        bind_namespace: from.namespace,
        run_id: Seq::empty(),
        created_user: d.created_user,
        run_status: None,
        schedule_status: None,
        schedule_type: None,
        exit_code: None,
        exit_status: None,
        stdout: None,
        stderr: None,
        start_time: None,
        end_time: None,
        prev_time: None,
        next_time: None,
        bundle_output: None,
    }
}

/// The report that opens an execution.
pub open spec fn running_report(
    from: Origin,
    d: DispatchView,
    instance_id: Seq<char>,
    schedule_type: ScheduleType,
    start_time: Timestamp,
    prev_time: Option<Timestamp>,
    next_time: Option<Timestamp>,
) -> ReportView {
    ReportView {
        run_status: Some(RunStatus::Running),
        run_id: d.run_id,
        schedule_type: Some(schedule_type),
        start_time: Some(start_time),
        prev_time,
        next_time,
        ..plain_report(from, d, instance_id)
    }
}

/// The report that closes an execution. From the executor's output it takes
/// the exit code, the exit status, both streams and the outputs of a
/// bundle's scripts. Where the executor failed, the exit code is 99, the
/// error's text stands for the exit status and for both streams, and a
/// bundle job reports an empty list of script outputs.
pub open spec fn stop_report(
    from: Origin,
    d: DispatchView,
    instance_id: Seq<char>,
    schedule_type: ScheduleType,
    start_time: Timestamp,
    end_time: Timestamp,
    outcome: Result<ExecOutputView, Seq<char>>,
) -> ReportView {
    let common = ReportView {
        run_status: Some(RunStatus::Stop),
        run_id: d.run_id,
        schedule_type: Some(schedule_type),
        start_time: Some(start_time),
        end_time: Some(end_time),
        ..plain_report(from, d, instance_id)
    };
    match outcome {
        Ok(output) => ReportView {
            exit_code: output.exit_code,
            exit_status: output.exit_status,
            stdout: output.stdout,
            stderr: output.stderr,
            bundle_output: output.bundle_output,
            ..common
        },
        Err(text) => ReportView {
            exit_code: Some(EXECUTOR_FAILURE_CODE),
            exit_status: Some(text),
            stdout: Some(text),
            stderr: Some(text),
            bundle_output: if d.base_job.bundle_script is Some {
                Some(Seq::empty())
            } else {
                None
            },
            ..common
        },
    }
}

/// The report on a schedule: that a timer is set or cleared, that a
/// supervisor is on or off.
pub open spec fn schedule_report(
    from: Origin,
    d: DispatchView,
    instance_id: Seq<char>,
    schedule_type: ScheduleType,
    schedule_status: ScheduleStatus,
    run_status: Option<RunStatus>,
    next_time: Option<Timestamp>,
) -> ReportView {
    ReportView {
        schedule_status: Some(schedule_status),
        schedule_type: Some(schedule_type),
        run_status,
        next_time,
        ..plain_report(from, d, instance_id)
    }
}

/// The text of the dispatch's instance id, or the error for its absence.
pub open spec fn instance_or_error(d: DispatchView) -> Result<Seq<char>, ErrorView> {
    match d.instance_id {
        Some(id) => Ok(id),
        None => Err(ErrorView::MissingInstanceId),
    }
}

/// A report's model, or the model of the error in its place.
pub open spec fn report_result_view(r: Result<UpdateJobParams, ReactError>) -> Result<
    ReportView,
    ErrorView,
> {
    match r {
        Ok(report) => Ok(report@),
        Err(e) => Err(e@),
    }
}

impl UpdateJobParams {
    fn plain(bind_namespace: &str, bind_ip: &str, params: &DispatchJobParams, instance_id: &str) -> (out:
        UpdateJobParams)
        ensures
            out@ == plain_report(
                Origin { namespace: bind_namespace@, ip: bind_ip@ },
                params@,
                instance_id@,
            ),
    {
        let out = UpdateJobParams {
            base_job: params.base_job.to_pure_job(),
            schedule_id: params.schedule_id.clone(),
            instance_id: instance_id.to_owned(),
            bind_ip: bind_ip.to_owned(),
            bind_namespace: bind_namespace.to_owned(),
            run_id: String::new(),
            created_user: params.created_user.clone(),
            run_status: None,
            schedule_status: None,
            schedule_type: None,
            exit_code: None,
            exit_status: None,
            stdout: None,
            stderr: None,
            start_time: None,
            end_time: None,
            prev_time: None,
            next_time: None,
            bundle_output: None,
        };
        assert(out@ =~= plain_report(
            Origin { namespace: bind_namespace@, ip: bind_ip@ },
            params@,
            instance_id@,
        ));
        out
    }

    /// The report that opens an execution of `params`. A dispatch without
    /// an instance id has no report.
    pub fn running(
        bind_namespace: &str,
        bind_ip: &str,
        params: &DispatchJobParams,
        schedule_type: ScheduleType,
        start_time: Timestamp,
        prev_time: Option<Timestamp>,
        next_time: Option<Timestamp>,
    ) -> (out: Result<UpdateJobParams, ReactError>)
        ensures
            report_result_view(out) == match instance_or_error(params@) {
                Ok(id) => Ok(
                    running_report(
                        Origin { namespace: bind_namespace@, ip: bind_ip@ },
                        params@,
                        id,
                        schedule_type,
                        start_time,
                        prev_time,
                        next_time,
                    ),
                ),
                Err(e) => Err(e),
            },
    {
        match &params.instance_id {
            Some(id) => Ok(
                UpdateJobParams::running_for(
                    bind_namespace,
                    bind_ip,
                    params,
                    id.as_str(),
                    schedule_type,
                    start_time,
                    prev_time,
                    next_time,
                ),
            ),
            None => Err(ReactError::MissingInstanceId),
        }
    }

    /// The report that opens an execution of `params` on the instance
    /// `instance_id`.
    pub fn running_for(
        bind_namespace: &str,
        bind_ip: &str,
        params: &DispatchJobParams,
        instance_id: &str,
        schedule_type: ScheduleType,
        start_time: Timestamp,
        prev_time: Option<Timestamp>,
        next_time: Option<Timestamp>,
    ) -> (out: UpdateJobParams)
        ensures
            out@ == running_report(
                Origin { namespace: bind_namespace@, ip: bind_ip@ },
                params@,
                instance_id@,
                schedule_type,
                start_time,
                prev_time,
                next_time,
            ),
    {
        let mut out = UpdateJobParams::plain(bind_namespace, bind_ip, params, instance_id);
        out.run_status = Some(RunStatus::Running);
        out.run_id = params.run_id.clone();
        out.schedule_type = Some(schedule_type);
        out.start_time = Some(start_time);
        out.prev_time = prev_time;
        out.next_time = next_time;
        assert(out@ =~= running_report(
            Origin { namespace: bind_namespace@, ip: bind_ip@ },
            params@,
            instance_id@,
            schedule_type,
            start_time,
            prev_time,
            next_time,
        ));
        out
    }

    /// The report that closes an execution of `params` that ended with
    /// `outcome`. A dispatch without an instance id has no report.
    pub fn stop(
        bind_namespace: &str,
        bind_ip: &str,
        params: &DispatchJobParams,
        schedule_type: ScheduleType,
        start_time: Timestamp,
        end_time: Timestamp,
        outcome: &Result<ExecOutput, String>,
    ) -> (out: Result<UpdateJobParams, ReactError>)
        ensures
            report_result_view(out) == match instance_or_error(params@) {
                Ok(id) => Ok(
                    stop_report(
                        Origin { namespace: bind_namespace@, ip: bind_ip@ },
                        params@,
                        id,
                        schedule_type,
                        start_time,
                        end_time,
                        outcome_view(*outcome),
                    ),
                ),
                Err(e) => Err(e),
            },
    {
        match &params.instance_id {
            Some(id) => Ok(
                UpdateJobParams::stop_for(
                    bind_namespace,
                    bind_ip,
                    params,
                    id.as_str(),
                    schedule_type,
                    start_time,
                    end_time,
                    outcome,
                ),
            ),
            None => Err(ReactError::MissingInstanceId),
        }
    }

    /// The report that closes an execution of `params` on the instance
    /// `instance_id` that ended with `outcome`.
    pub fn stop_for(
        bind_namespace: &str,
        bind_ip: &str,
        params: &DispatchJobParams,
        instance_id: &str,
        schedule_type: ScheduleType,
        start_time: Timestamp,
        end_time: Timestamp,
        outcome: &Result<ExecOutput, String>,
    ) -> (out: UpdateJobParams)
        ensures
            out@ == stop_report(
                Origin { namespace: bind_namespace@, ip: bind_ip@ },
                params@,
                instance_id@,
                schedule_type,
                start_time,
                end_time,
                outcome_view(*outcome),
            ),
    {
        let mut out = UpdateJobParams::plain(bind_namespace, bind_ip, params, instance_id);
        out.run_status = Some(RunStatus::Stop);
        out.run_id = params.run_id.clone();
        out.schedule_type = Some(schedule_type);
        out.start_time = Some(start_time);
        out.end_time = Some(end_time);
        match outcome {
            Ok(output) => {
                out.exit_code = output.exit_code;
                out.exit_status = copy_opt_text(&output.exit_status);
                out.stdout = copy_opt_text(&output.stdout);
                out.stderr = copy_opt_text(&output.stderr);
                out.bundle_output = copy_bundle_outputs(&output.bundle_output);
            },
            Err(text) => {
                out.exit_code = Some(EXECUTOR_FAILURE_CODE);
                out.exit_status = Some(text.clone());
                out.stdout = Some(text.clone());
                out.stderr = Some(text.clone());
                if params.base_job.is_bundle() {
                    let none: Vec<BundleOutputParams> = Vec::new();
                    assert(bundle_outputs(none@) =~= Seq::<BundleOutputView>::empty());
                    out.bundle_output = Some(none);
                } else {
                    out.bundle_output = None;
                }
            },
        }
        assert(out@ =~= stop_report(
            Origin { namespace: bind_namespace@, ip: bind_ip@ },
            params@,
            instance_id@,
            schedule_type,
            start_time,
            end_time,
            outcome_view(*outcome),
        ));
        out
    }

    /// The report on a schedule of `params`. A dispatch without an instance
    /// id has no report.
    pub fn schedule(
        bind_namespace: &str,
        bind_ip: &str,
        params: &DispatchJobParams,
        schedule_type: ScheduleType,
        schedule_status: ScheduleStatus,
        run_status: Option<RunStatus>,
        next_time: Option<Timestamp>,
    ) -> (out: Result<UpdateJobParams, ReactError>)
        ensures
            report_result_view(out) == match instance_or_error(params@) {
                Ok(id) => Ok(
                    schedule_report(
                        Origin { namespace: bind_namespace@, ip: bind_ip@ },
                        params@,
                        id,
                        schedule_type,
                        schedule_status,
                        run_status,
                        next_time,
                    ),
                ),
                Err(e) => Err(e),
            },
    {
        let instance_id = match &params.instance_id {
            Some(id) => id.as_str(),
            None => {
                return Err(ReactError::MissingInstanceId);
            },
        };
        let mut out = UpdateJobParams::plain(bind_namespace, bind_ip, params, instance_id);
        out.schedule_status = Some(schedule_status);
        out.schedule_type = Some(schedule_type);
        out.run_status = run_status;
        out.next_time = next_time;
        assert(out@ =~= schedule_report(
            Origin { namespace: bind_namespace@, ip: bind_ip@ },
            params@,
            params.instance_id.unwrap()@,
            schedule_type,
            schedule_status,
            run_status,
            next_time,
        ));
        Ok(out)
    }
}

} // verus!
