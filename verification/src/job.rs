//! The records that describe a job and one dispatch of it.

use vstd::prelude::*;
use crate::text::{copy_opt_text, copy_texts, opt_text, texts};
use crate::types::JobAction;

verus! {

/// A point in time, in milliseconds since the Unix epoch.
pub type Timestamp = i64;

/// A span of time: whole seconds and the nanoseconds beyond them.
#[derive(Clone, Copy, Debug, PartialEq, Eq, Structural)]
pub struct Interval {
    pub secs: u64,
    pub nanos: u32,
}

/// A file that the coordinator ships along with a job.
#[derive(Clone, Debug, PartialEq, Eq)]
pub struct UploadFile {
    pub filename: String,
    pub data: Option<Vec<u8>>,
}

/// The model of an [`UploadFile`].
#[verifier::ext_equal]
pub struct UploadFileView {
    pub filename: Seq<char>,
    pub data: Option<Seq<u8>>,
}

impl View for UploadFile {
    type V = UploadFileView;

    open spec fn view(&self) -> UploadFileView {
        UploadFileView {
            filename: self.filename@,
            data: match self.data {
                Some(d) => Some(d@),
                None => None,
            },
        }
    }
}

/// The model of an optional upload.
pub open spec fn opt_upload(o: Option<UploadFile>) -> Option<UploadFileView> {
    match o {
        Some(f) => Some(f@),
        None => None,
    }
}

/// One script of a bundle job.
#[derive(Clone, Debug, PartialEq, Eq)]
pub struct BundleScript {
    pub eid: String,
    pub cmd_name: String,
    pub code: String,
    pub args: Vec<String>,
}

/// The model of a [`BundleScript`].
#[verifier::ext_equal]
pub struct BundleScriptView {
    pub eid: Seq<char>,
    pub cmd_name: Seq<char>,
    pub code: Seq<char>,
    pub args: Seq<Seq<char>>,
}

impl View for BundleScript {
    type V = BundleScriptView;

    open spec fn view(&self) -> BundleScriptView {
        BundleScriptView {
            eid: self.eid@,
            cmd_name: self.cmd_name@,
            code: self.code@,
            args: texts(self.args@),
        }
    }
}

/// The models of a list of scripts.
pub open spec fn scripts(v: Seq<BundleScript>) -> Seq<BundleScriptView> {
    Seq::new(v.len(), |i: int| v[i]@)
}

/// The model of an optional list of scripts.
pub open spec fn opt_scripts(o: Option<Vec<BundleScript>>) -> Option<Seq<BundleScriptView>> {
    match o {
        Some(v) => Some(scripts(v@)),
        None => None,
    }
}

impl BundleScript {
    /// A copy of the script.
    pub fn copy(&self) -> (out: BundleScript)
        ensures
            out@ == self@,
    {
        BundleScript {
            eid: self.eid.clone(),
            cmd_name: self.cmd_name.clone(),
            code: self.code.clone(),
            args: copy_texts(&self.args),
        }
    }
}

/// A copy of a list of scripts.
pub fn copy_scripts(v: &Vec<BundleScript>) -> (out: Vec<BundleScript>)
    ensures
        scripts(out@) == scripts(v@),
{
    let mut out: Vec<BundleScript> = Vec::new();
    let mut i: usize = 0;
    while i < v.len()
        invariant
            i <= v@.len(),
            out@.len() == i,
            forall|j: int| 0 <= j < i ==> out@[j]@ == v@[j]@,
        decreases v@.len() - i,
    {
        out.push(v[i].copy());
        i += 1;
    }
    assert(scripts(out@) =~= scripts(v@));
    out
}

/// What to run: the command, its input and its limits.
#[derive(Clone, Debug, PartialEq, Eq)]
pub struct BaseJob {
    pub eid: String,
    pub cmd_name: String,
    pub code: String,
    pub args: Vec<String>,
    pub work_dir: Option<String>,
    pub work_user: Option<String>,
    pub timeout: u64,
    pub max_retry: Option<u8>,
    pub max_parallel: Option<u32>,
    pub read_code_from_stdin: bool,
    pub upload_file: Option<UploadFile>,
    pub bundle_script: Option<Vec<BundleScript>>,
}

/// The model of a [`BaseJob`].
#[verifier::ext_equal]
pub struct BaseJobView {
    pub eid: Seq<char>,
    pub cmd_name: Seq<char>,
    pub code: Seq<char>,
    pub args: Seq<Seq<char>>,
    pub work_dir: Option<Seq<char>>,
    pub work_user: Option<Seq<char>>,
    pub timeout: u64,
    pub max_retry: Option<u8>,
    pub max_parallel: Option<u32>,
    pub read_code_from_stdin: bool,
    pub upload_file: Option<UploadFileView>,
    pub bundle_script: Option<Seq<BundleScriptView>>,
}

impl View for BaseJob {
    type V = BaseJobView;

    open spec fn view(&self) -> BaseJobView {
        BaseJobView {
            eid: self.eid@,
            cmd_name: self.cmd_name@,
            code: self.code@,
            args: texts(self.args@),
            work_dir: opt_text(self.work_dir),
            work_user: opt_text(self.work_user),
            timeout: self.timeout,
            max_retry: self.max_retry,
            max_parallel: self.max_parallel,
            read_code_from_stdin: self.read_code_from_stdin,
            upload_file: opt_upload(self.upload_file),
            bundle_script: opt_scripts(self.bundle_script),
        }
    }
}

/// An upload without its content: the name stays, the bytes go.
pub open spec fn without_content(o: Option<UploadFileView>) -> Option<UploadFileView> {
    match o {
        Some(f) => Some(UploadFileView { filename: f.filename, data: None }),
        None => None,
    }
}

/// The job as it is reported and stored: all of it but the uploaded bytes.
pub open spec fn pure_job(job: BaseJobView) -> BaseJobView {
    BaseJobView { upload_file: without_content(job.upload_file), ..job }
}

/// The job as a daemon runs it: without a limit on its running time.
pub open spec fn untimed_job(job: BaseJobView) -> BaseJobView {
    BaseJobView { timeout: 0, ..job }
}

/// The most runs of one mode that a job may have in flight: what the job
/// asks for, and one where it asks for nothing or for zero.
pub open spec fn effective_max_parallel(max_parallel: Option<u32>) -> u32 {
    match max_parallel {
        Some(v) => if v > 0 {
            v
        } else {
            1
        },
        None => 1,
    }
}

/// A copy of a run of bytes.
pub fn copy_bytes(v: &Vec<u8>) -> (out: Vec<u8>)
    ensures
        out@ == v@,
{
    let mut out: Vec<u8> = Vec::new();
    let mut i: usize = 0;
    while i < v.len()
        invariant
            i <= v@.len(),
            out@ == v@.take(i as int),
        decreases v@.len() - i,
    {
        out.push(v[i]);
        assert(v@.take(i as int).push(v@[i as int]) =~= v@.take(i + 1));
        i += 1;
    }
    assert(v@.take(v@.len() as int) =~= v@);
    out
}

impl UploadFile {
    /// A copy of the upload, bytes and all.
    pub fn copy(&self) -> (out: UploadFile)
        ensures
            out@ == self@,
    {
        UploadFile {
            filename: self.filename.clone(),
            data: match &self.data {
                Some(d) => Some(copy_bytes(d)),
                None => None,
            },
        }
    }
}

impl BaseJob {
    /// A copy of the job, uploaded bytes and all.
    pub fn copy(&self) -> (out: BaseJob)
        ensures
            out@ == self@,
    {
        let upload_file = match &self.upload_file {
            Some(f) => Some(f.copy()),
            None => None,
        };
        let bundle_script = match &self.bundle_script {
            Some(v) => Some(copy_scripts(v)),
            None => None,
        };
        BaseJob {
            eid: self.eid.clone(),
            cmd_name: self.cmd_name.clone(),
            code: self.code.clone(),
            args: copy_texts(&self.args),
            work_dir: copy_opt_text(&self.work_dir),
            work_user: copy_opt_text(&self.work_user),
            timeout: self.timeout,
            max_retry: self.max_retry,
            max_parallel: self.max_parallel,
            read_code_from_stdin: self.read_code_from_stdin,
            upload_file,
            bundle_script,
        }
    }

    /// The job without the bytes of its upload.
    pub fn to_pure_job(&self) -> (out: BaseJob)
        ensures
            out@ == pure_job(self@),
    {
        let upload_file = match &self.upload_file {
            Some(f) => Some(UploadFile { filename: f.filename.clone(), data: None }),
            None => None,
        };
        let bundle_script = match &self.bundle_script {
            Some(v) => Some(copy_scripts(v)),
            None => None,
        };
        BaseJob {
            eid: self.eid.clone(),
            cmd_name: self.cmd_name.clone(),
            code: self.code.clone(),
            args: copy_texts(&self.args),
            work_dir: copy_opt_text(&self.work_dir),
            work_user: copy_opt_text(&self.work_user),
            timeout: self.timeout,
            max_retry: self.max_retry,
            max_parallel: self.max_parallel,
            read_code_from_stdin: self.read_code_from_stdin,
            upload_file,
            bundle_script,
        }
    }

    /// The cap on the runs of one mode that this job may have in flight.
    pub fn max_parallel(&self) -> (cap: u32)
        ensures
            cap == effective_max_parallel(self.max_parallel),
            cap >= 1,
    {
        match self.max_parallel {
            Some(v) => if v > 0 {
                v
            } else {
                1
            },
            None => 1,
        }
    }

    /// Whether the job is a bundle of scripts.
    pub fn is_bundle(&self) -> (bundle: bool)
        ensures
            bundle == self@.bundle_script.is_some(),
    {
        self.bundle_script.is_some()
    }
}

/// One dispatch of a job, as the coordinator sends it.
#[derive(Clone, Debug, PartialEq, Eq)]
pub struct DispatchJobParams {
    pub base_job: BaseJob,
    pub schedule_id: String,
    pub instance_id: Option<String>,
    pub run_id: String,
    pub is_sync: bool,
    pub timer_expr: Option<String>,
    pub restart_interval: Option<Interval>,
    pub created_user: String,
    pub action: JobAction,
}

/// The model of a [`DispatchJobParams`].
#[verifier::ext_equal]
pub struct DispatchView {
    pub base_job: BaseJobView,
    pub schedule_id: Seq<char>,
    pub instance_id: Option<Seq<char>>,
    pub run_id: Seq<char>,
    pub is_sync: bool,
    pub timer_expr: Option<Seq<char>>,
    pub restart_interval: Option<Interval>,
    pub created_user: Seq<char>,
    pub action: JobAction,
}

impl DispatchJobParams {
    /// A copy of the dispatch.
    pub fn copy(&self) -> (out: DispatchJobParams)
        ensures
            out@ == self@,
    {
        DispatchJobParams {
            base_job: self.base_job.copy(),
            schedule_id: self.schedule_id.clone(),
            instance_id: copy_opt_text(&self.instance_id),
            run_id: self.run_id.clone(),
            is_sync: self.is_sync,
            timer_expr: copy_opt_text(&self.timer_expr),
            restart_interval: self.restart_interval,
            created_user: self.created_user.clone(),
            action: self.action,
        }
    }
}

impl View for DispatchJobParams {
    type V = DispatchView;

    open spec fn view(&self) -> DispatchView {
        DispatchView {
            base_job: self.base_job@,
            schedule_id: self.schedule_id@,
            instance_id: opt_text(self.instance_id),
            run_id: self.run_id@,
            is_sync: self.is_sync,
            timer_expr: opt_text(self.timer_expr),
            restart_interval: self.restart_interval,
            created_user: self.created_user@,
            action: self.action,
        }
    }
}

} // verus!
