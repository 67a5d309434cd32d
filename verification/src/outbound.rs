//! What the coordinator sends to its agents, and how it reads what comes
//! back.

use vstd::prelude::*;
use vstd::string::StringExecFns;
use crate::command::{command_args, command_name, parse_command};
use crate::job::{
    opt_scripts, opt_upload, BaseJob, BaseJobView, BundleScript, BundleScriptView,
    DispatchJobParams, DispatchView, Interval, UploadFile,
};
use crate::reply::SUCCESS_CODE;
use crate::schedule::{BundleScriptRecord, JobLogic};
use crate::text::opt_text;
use crate::types::JobAction;

verus! {

/// What the coordinator stores of a job, as far as a dispatch needs it.
#[derive(Clone, Debug, PartialEq, Eq)]
pub struct JobRecord {
    pub eid: String,
    pub code: String,
    pub work_dir: String,
    pub work_user: String,
    pub timeout: u64,
    pub max_retry: u8,
    pub max_parallel: u8,
}

/// An agent that a dispatch goes to.
#[derive(Clone, Debug, PartialEq, Eq)]
pub struct DispatchTarget {
    pub ip: String,
    pub mac_addr: String,
    pub namespace: String,
    pub instance_id: String,
}

/// A dispatch and the agents that it goes to, as the coordinator stores it.
#[derive(Clone, Debug, PartialEq, Eq)]
pub struct DispatchData {
    pub target: Vec<DispatchTarget>,
    pub params: DispatchJobParams,
}

/// How the dispatch to one agent went.
#[derive(Clone, Debug, PartialEq, Eq)]
pub struct DispatchResult {
    pub namespace: String,
    pub instance_id: String,
    pub bind_ip: String,
    /// The agent's answer as it came; `None` where none came.
    pub response: Option<String>,
    pub has_err: bool,
    pub err: Option<String>,
}

/// The model of a [`DispatchResult`].
#[verifier::ext_equal]
pub struct DispatchResultView {
    pub namespace: Seq<char>,
    pub instance_id: Seq<char>,
    pub bind_ip: Seq<char>,
    pub response: Option<Seq<char>>,
    pub has_err: bool,
    pub err: Option<Seq<char>>,
}

impl View for DispatchResult {
    type V = DispatchResultView;

    open spec fn view(&self) -> DispatchResultView {
        DispatchResultView {
            namespace: self.namespace@,
            instance_id: self.instance_id@,
            bind_ip: self.bind_ip@,
            response: opt_text(self.response),
            has_err: self.has_err,
            err: opt_text(self.err),
        }
    }
}

/// A text, unless it is empty.
pub open spec fn non_empty(text: Seq<char>) -> Option<Seq<char>> {
    if text.len() == 0 {
        None
    } else {
        Some(text)
    }
}

/// The dispatch that the coordinator makes of a job: the executor's command
/// line gives the command's name and arguments, the job's record the rest.
/// No instance is named yet.
pub open spec fn dispatch_of(
    job: JobRecord,
    command: Seq<char>,
    bundle_script: Option<Seq<BundleScriptView>>,
    upload_file: Option<UploadFile>,
    schedule_id: Seq<char>,
    run_id: Seq<char>,
    is_sync: bool,
    action: JobAction,
    timer_expr: Option<Seq<char>>,
    restart_interval: Option<Interval>,
    created_user: Seq<char>,
) -> DispatchView {
    DispatchView {
        base_job: BaseJobView {
            eid: job.eid@,
            cmd_name: command_name(command),
            code: job.code@,
            args: command_args(command),
            work_dir: non_empty(job.work_dir@),
            work_user: non_empty(job.work_user@),
            timeout: job.timeout,
            max_retry: Some(job.max_retry),
            max_parallel: Some(job.max_parallel as u32),
            read_code_from_stdin: false,
            upload_file: opt_upload(upload_file),
            bundle_script,
        },
        schedule_id,
        instance_id: None,
        run_id,
        is_sync,
        timer_expr,
        restart_interval,
        created_user,
        action,
    }
}

/// The result of a dispatch that did not reach the agent or brought no
/// answer that could be read.
pub open spec fn failed_result(target: DispatchTarget, err: Seq<char>) -> DispatchResultView {
    DispatchResultView {
        namespace: target.namespace@,
        instance_id: target.instance_id@,
        bind_ip: target.ip@,
        response: None,
        has_err: true,
        err: Some(err),
    }
}

/// The result of a dispatch that the agent answered: an error, with the
/// answer's message, unless the answer's code is the code of success.
pub open spec fn replied_result(
    target: DispatchTarget,
    code: Option<i64>,
    msg: Seq<char>,
    response: Seq<char>,
) -> DispatchResultView {
    DispatchResultView {
        namespace: target.namespace@,
        instance_id: target.instance_id@,
        bind_ip: target.ip@,
        response: Some(response),
        has_err: code != Some(SUCCESS_CODE as i64),
        err: if code != Some(SUCCESS_CODE as i64) {
            Some(msg)
        } else {
            None
        },
    }
}

/// Whether one of the results is an error.
pub open spec fn any_failed(results: Seq<DispatchResult>) -> bool {
    exists|i: int| 0 <= i < results.len() && (#[trigger] results[i]).has_err
}

fn keep_non_empty(text: &String) -> (out: Option<String>)
    ensures
        opt_text(out) == non_empty(text@),
{
    if text.as_str().unicode_len() == 0 {
        None
    } else {
        Some(text.clone())
    }
}

impl DispatchResult {
    /// The result of a dispatch that brought no answer.
    pub fn failed(target: &DispatchTarget, err: String) -> (out: DispatchResult)
        ensures
            out@ == failed_result(*target, err@),
    {
        DispatchResult {
            namespace: target.namespace.clone(),
            instance_id: target.instance_id.clone(),
            bind_ip: target.ip.clone(),
            response: None,
            has_err: true,
            err: Some(err),
        }
    }

    /// The result of a dispatch that the agent answered with `code` and
    /// `msg`; `response` is the answer as it came.
    pub fn replied(target: &DispatchTarget, code: Option<i64>, msg: String, response: String) -> (out:
        DispatchResult)
        ensures
            out@ == replied_result(*target, code, msg@, response@),
    {
        let ok = match code {
            Some(c) => c == 20000,
            None => false,
        };
        DispatchResult {
            namespace: target.namespace.clone(),
            instance_id: target.instance_id.clone(),
            bind_ip: target.ip.clone(),
            response: Some(response),
            has_err: !ok,
            err: if ok {
                None
            } else {
                Some(msg)
            },
        }
    }
}

impl JobLogic {
    /// One script of a bundle as the agent runs it: the executor's command
    /// line gives the command's name and arguments.
    pub fn bundle_script(record: &BundleScriptRecord, command: &str) -> (script: BundleScript)
        ensures
            script@ == (BundleScriptView {
                eid: record.eid@,
                cmd_name: command_name(command@),
                code: record.code@,
                args: command_args(command@),
            }),
    {
        let (cmd_name, args) = parse_command(command);
        BundleScript { eid: record.eid.clone(), cmd_name, code: record.code.clone(), args }
    }

    /// The dispatch that the coordinator makes of a job.
    pub fn dispatch_job(
        &self,
        job: &JobRecord,
        command: &str,
        bundle_script: Option<Vec<BundleScript>>,
        upload_file: Option<UploadFile>,
        schedule_id: String,
        run_id: String,
        is_sync: bool,
        action: JobAction,
        timer_expr: Option<String>,
        restart_interval: Option<Interval>,
        created_user: String,
    ) -> (params: DispatchJobParams)
        ensures
            params@ == dispatch_of(
                *job,
                command@,
                opt_scripts(bundle_script),
                upload_file,
                schedule_id@,
                run_id@,
                is_sync,
                action,
                opt_text(timer_expr),
                restart_interval,
                created_user@,
            ),
    {
        let (cmd_name, args) = parse_command(command);
        let params = DispatchJobParams {
            base_job: BaseJob {
                eid: job.eid.clone(),
                cmd_name,
                code: job.code.clone(),
                args,
                work_dir: keep_non_empty(&job.work_dir),
                work_user: keep_non_empty(&job.work_user),
                timeout: job.timeout,
                max_retry: Some(job.max_retry),
                max_parallel: Some(job.max_parallel as u32),
                read_code_from_stdin: false,
                upload_file,
                bundle_script,
            },
            schedule_id,
            instance_id: None,
            run_id,
            is_sync,
            timer_expr,
            restart_interval,
            created_user,
            action,
        };
        assert(params@ =~= dispatch_of(
            *job,
            command@,
            opt_scripts(bundle_script),
            upload_file,
            schedule_id@,
            run_id@,
            is_sync,
            action,
            opt_text(timer_expr),
            restart_interval,
            created_user@,
        ));
        params
    }

    /// The dispatch as it goes to the instance `instance_id`.
    pub fn dispatch_runnable_job_to_endpoint(&self, params: &DispatchJobParams, instance_id: &str) -> (out:
        DispatchJobParams)
        ensures
            out@ == (DispatchView { instance_id: Some(instance_id@), ..params@ }),
    {
        let mut out = params.copy();
        out.instance_id = Some(instance_id.to_owned());
        assert(out@ =~= (DispatchView { instance_id: Some(instance_id@), ..params@ }));
        out
    }

    /// A stored dispatch as it goes out again to the instance
    /// `instance_id`: with the action and the user of the new request, and
    /// under a new run id.
    pub fn redispatch_job(
        &self,
        params: &DispatchJobParams,
        instance_id: &str,
        action: JobAction,
        created_user: &str,
        run_id: String,
    ) -> (out: DispatchJobParams)
        ensures
            out@ == (DispatchView {
                instance_id: Some(instance_id@),
                action,
                created_user: created_user@,
                run_id: run_id@,
                ..params@
            }),
    {
        let mut out = params.copy();
        out.instance_id = Some(instance_id.to_owned());
        out.action = action;
        out.created_user = created_user.to_owned();
        out.run_id = run_id;
        assert(out@ =~= (DispatchView {
            instance_id: Some(instance_id@),
            action,
            created_user: created_user@,
            run_id: run_id@,
            ..params@
        }));
        out
    }

    /// A stored dispatch as a user's action on one instance sends it.
    pub fn action(
        &self,
        params: &DispatchJobParams,
        instance_id: &str,
        action: JobAction,
        created_user: &str,
        run_id: String,
    ) -> (out: DispatchJobParams)
        ensures
            out@ == (DispatchView {
                instance_id: Some(instance_id@),
                action,
                created_user: created_user@,
                run_id: run_id@,
                ..params@
            }),
    {
        self.redispatch_job(params, instance_id, action, created_user, run_id)
    }

    /// Whether one of the dispatches failed.
    pub fn has_failed(results: &Vec<DispatchResult>) -> (failed: bool)
        ensures
            failed == any_failed(results@),
    {
        let mut i: usize = 0;
        while i < results.len()
            invariant
                i <= results@.len(),
                forall|j: int| 0 <= j < i ==> !(#[trigger] results@[j]).has_err,
            decreases results@.len() - i,
        {
            if results[i].has_err {
                return true;
            }
            i += 1;
        }
        false
    }

    /// The address that a dispatch is posted to at the coordinator's relay
    /// `comet_addr`, with the relay's secret where one is shown.
    pub fn dispatch_url(comet_addr: &str, secret: Option<&str>) -> (url: String)
        ensures
            url@ == match secret {
                Some(s) => "http://"@ + comet_addr@ + "/dispatch?secret="@ + s@,
                None => "http://"@ + comet_addr@ + "/dispatch"@,
            },
    {
        let mut url = "http://".to_owned();
        url.append(comet_addr);
        match secret {
            Some(s) => {
                url.append("/dispatch?secret=");
                url.append(s);
            },
            None => {
                url.append("/dispatch");
            },
        }
        url
    }
}

} // verus!
