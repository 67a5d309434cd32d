//! What the coordinator stores when a lifecycle report comes in.

use vstd::prelude::*;
use vstd::string::StringExecFns;
use crate::job::Timestamp;
use crate::report::{ReportView, UpdateJobParams};
use crate::schedule::JobLogic;
use crate::text::opt_text;
use crate::types::{JobAction, RunStatus, ScheduleStatus};

verus! {

/// A column of the running-status row that a report may overwrite.
#[derive(Clone, Copy, Debug, PartialEq, Eq, Structural)]
pub enum StatusColumn {
    ScheduleId,
    UpdatedUser,
    IsDeleted,
    StartTime,
    EndTime,
    PrevTime,
    NextTime,
    RunStatus,
    ExitStatus,
    ExitCode,
    ScheduleStatus,
}

/// When a job's callback is called.
#[derive(Clone, Copy, Debug, PartialEq, Eq, Structural)]
pub enum CompletedCallbackTriggerType {
    /// After every execution.
    All,
    /// After an execution that did not exit with zero.
    Error,
}

/// The row that the coordinator adds to the history of executions.
#[derive(Clone, Debug, PartialEq, Eq)]
pub struct ExecHistory {
    pub schedule_id: String,
    pub instance_id: String,
    pub run_id: String,
    pub eid: String,
    pub created_user: String,
    pub exit_status: String,
    pub exit_code: i32,
    pub output: String,
    pub start_time: Option<Timestamp>,
    pub end_time: Option<Timestamp>,
    pub job_type: String,
}

/// The model of an [`ExecHistory`].
#[verifier::ext_equal]
pub struct ExecHistoryView {
    pub schedule_id: Seq<char>,
    pub instance_id: Seq<char>,
    pub run_id: Seq<char>,
    pub eid: Seq<char>,
    pub created_user: Seq<char>,
    pub exit_status: Seq<char>,
    pub exit_code: i32,
    pub output: Seq<char>,
    pub start_time: Option<Timestamp>,
    pub end_time: Option<Timestamp>,
    pub job_type: Seq<char>,
}

impl View for ExecHistory {
    type V = ExecHistoryView;

    open spec fn view(&self) -> ExecHistoryView {
        ExecHistoryView {
            schedule_id: self.schedule_id@,
            instance_id: self.instance_id@,
            run_id: self.run_id@,
            eid: self.eid@,
            created_user: self.created_user@,
            exit_status: self.exit_status@,
            exit_code: self.exit_code,
            output: self.output@,
            start_time: self.start_time,
            end_time: self.end_time,
            job_type: self.job_type@,
        }
    }
}

/// What the coordinator does with a report.
#[derive(Clone, Debug, PartialEq, Eq)]
pub struct StatusUpdate {
    /// The columns of the running-status row to overwrite where the row is
    /// there already, in the order in which they are written.
    pub columns: Vec<StatusColumn>,
    /// The job type of the running-status row.
    pub job_type: String,
    /// The row to add to the history, for a report that closes an execution.
    pub history: Option<ExecHistory>,
}

/// The columns that a report overwrites: always the schedule id, the user
/// and the deletion mark; both ends of the run where the report has a start
/// time; the previous and the next fire where it has a previous one; the
/// next fire where it clears the timer; and each of the run status, the
/// exit status, the exit code and the schedule status that it carries.
pub open spec fn status_columns(r: ReportView) -> Seq<StatusColumn> {
    seq![StatusColumn::ScheduleId, StatusColumn::UpdatedUser, StatusColumn::IsDeleted] + (
    if r.start_time is Some {
        seq![StatusColumn::StartTime, StatusColumn::EndTime]
    } else {
        Seq::empty()
    }) + (if r.prev_time is Some {
        seq![StatusColumn::PrevTime, StatusColumn::NextTime]
    } else {
        Seq::empty()
    }) + (if r.schedule_status == Some(ScheduleStatus::Unscheduled) {
        seq![StatusColumn::NextTime]
    } else {
        Seq::empty()
    }) + (if r.run_status is Some {
        seq![StatusColumn::RunStatus]
    } else {
        Seq::empty()
    }) + (if r.exit_status is Some {
        seq![StatusColumn::ExitStatus]
    } else {
        Seq::empty()
    }) + (if r.exit_code is Some {
        seq![StatusColumn::ExitCode]
    } else {
        Seq::empty()
    }) + (if r.schedule_status is Some {
        seq![StatusColumn::ScheduleStatus]
    } else {
        Seq::empty()
    })
}

/// The name of a job's type: a bundle or a default job.
pub open spec fn job_type_name(bundle: bool) -> Seq<char> {
    if bundle {
        "bundle"@
    } else {
        "default"@
    }
}

/// The output that is stored for an execution: its error stream, a line
/// break and its output stream; the output stream alone where the report
/// has no error stream; an absent output stream counts as empty.
pub open spec fn merged_output(stdout: Option<Seq<char>>, stderr: Option<Seq<char>>) -> Seq<char> {
    let out = match stdout {
        Some(text) => text,
        None => Seq::empty(),
    };
    match stderr {
        Some(err) => err + "\n"@ + out,
        None => out,
    }
}

/// The history row of a report that closes an execution; no row for any
/// other report.
pub open spec fn history_row(r: ReportView) -> Option<ExecHistoryView> {
    if r.run_status == Some(RunStatus::Stop) {
        Some(
            ExecHistoryView {
                schedule_id: r.schedule_id,
                instance_id: r.instance_id,
                run_id: r.run_id,
                eid: r.base_job.eid,
                created_user: r.created_user,
                exit_status: match r.exit_status {
                    Some(text) => text,
                    None => Seq::empty(),
                },
                exit_code: match r.exit_code {
                    Some(code) => code,
                    None => 0,
                },
                output: merged_output(r.stdout, r.stderr),
                start_time: r.start_time,
                end_time: r.end_time,
                job_type: job_type_name(r.bundle_output is Some),
            },
        )
    } else {
        None
    }
}

/// Whether a job's callback is due after a report: the callback is enabled,
/// the report closes an execution, and the execution did not exit with zero
/// or the callback is called after every execution.
pub open spec fn callback_due(
    enable: bool,
    trigger_on: CompletedCallbackTriggerType,
    r: ReportView,
) -> bool {
    enable && r.run_status == Some(RunStatus::Stop) && (trigger_on
        == CompletedCallbackTriggerType::All || r.exit_code != Some(0i32))
}

/// What the running-status rows of a job are set to when an action could
/// not be delivered to the agent: stopping a supervisor, clearing a timer
/// and killing a run mark the run as stopped, the first two also the
/// schedule; every other action leaves the rows alone.
pub open spec fn undelivered_status(action: JobAction) -> Option<(RunStatus, Option<ScheduleStatus>)> {
    match action {
        JobAction::StopSupervising => Some((RunStatus::Stop, Some(ScheduleStatus::Unsupervised))),
        JobAction::StopTimer => Some((RunStatus::Stop, Some(ScheduleStatus::Unscheduled))),
        JobAction::Kill => Some((RunStatus::Stop, None)),
        _ => None,
    }
}

fn push_column(columns: &mut Vec<StatusColumn>, column: StatusColumn)
    ensures
        final(columns)@ == old(columns)@ + seq![column],
{
    columns.push(column);
    assert(columns@ =~= old(columns)@ + seq![column]);
}

impl JobLogic {
    /// The name of the type of a job that is, or is not, a bundle.
    pub fn job_type(bundle: bool) -> (name: &'static str)
        ensures
            name@ == job_type_name(bundle),
    {
        if bundle {
            "bundle"
        } else {
            "default"
        }
    }

    /// The output that is stored for an execution.
    pub fn merge_output(stdout: &Option<String>, stderr: &Option<String>) -> (output: String)
        ensures
            output@ == merged_output(opt_text(*stdout), opt_text(*stderr)),
    {
        let out = match stdout {
            Some(text) => text.clone(),
            None => String::new(),
        };
        match stderr {
            Some(err) => {
                let mut merged = err.clone();
                merged.append("\n");
                merged.append(out.as_str());
                merged
            },
            None => out,
        }
    }

    /// What the coordinator stores for a report.
    pub fn update_job_status(&self, params: &UpdateJobParams) -> (update: StatusUpdate)
        ensures
            update.columns@ == status_columns(params@),
            update.job_type@ == job_type_name(params@.base_job.bundle_script is Some),
            match update.history {
                Some(row) => history_row(params@) == Some(row@),
                None => history_row(params@) is None,
            },
    {
        let mut columns: Vec<StatusColumn> = Vec::new();
        push_column(&mut columns, StatusColumn::ScheduleId);
        push_column(&mut columns, StatusColumn::UpdatedUser);
        push_column(&mut columns, StatusColumn::IsDeleted);
        assert(columns@ =~= seq![
            StatusColumn::ScheduleId,
            StatusColumn::UpdatedUser,
            StatusColumn::IsDeleted,
        ]);
        if params.start_time.is_some() {
            push_column(&mut columns, StatusColumn::StartTime);
            push_column(&mut columns, StatusColumn::EndTime);
        }
        let ghost c1 = columns@;
        assert(c1 =~= seq![
            StatusColumn::ScheduleId,
            StatusColumn::UpdatedUser,
            StatusColumn::IsDeleted,
        ] + (if params@.start_time is Some {
            seq![StatusColumn::StartTime, StatusColumn::EndTime]
        } else {
            Seq::empty()
        }));
        if params.prev_time.is_some() {
            push_column(&mut columns, StatusColumn::PrevTime);
            push_column(&mut columns, StatusColumn::NextTime);
        }
        let ghost c2 = columns@;
        assert(c2 =~= c1 + (if params@.prev_time is Some {
            seq![StatusColumn::PrevTime, StatusColumn::NextTime]
        } else {
            Seq::empty()
        }));
        match params.schedule_status {
            Some(ScheduleStatus::Unscheduled) => {
                push_column(&mut columns, StatusColumn::NextTime);
            },
            _ => {},
        }
        let ghost c3 = columns@;
        assert(c3 =~= c2 + (if params@.schedule_status == Some(ScheduleStatus::Unscheduled) {
            seq![StatusColumn::NextTime]
        } else {
            Seq::empty()
        }));
        if params.run_status.is_some() {
            push_column(&mut columns, StatusColumn::RunStatus);
        }
        let ghost c4 = columns@;
        assert(c4 =~= c3 + (if params@.run_status is Some {
            seq![StatusColumn::RunStatus]
        } else {
            Seq::empty()
        }));
        if params.exit_status.is_some() {
            push_column(&mut columns, StatusColumn::ExitStatus);
        }
        let ghost c5 = columns@;
        assert(c5 =~= c4 + (if params@.exit_status is Some {
            seq![StatusColumn::ExitStatus]
        } else {
            Seq::empty()
        }));
        if params.exit_code.is_some() {
            push_column(&mut columns, StatusColumn::ExitCode);
        }
        let ghost c6 = columns@;
        assert(c6 =~= c5 + (if params@.exit_code is Some {
            seq![StatusColumn::ExitCode]
        } else {
            Seq::empty()
        }));
        if params.schedule_status.is_some() {
            push_column(&mut columns, StatusColumn::ScheduleStatus);
        }
        assert(columns@ =~= c6 + (if params@.schedule_status is Some {
            seq![StatusColumn::ScheduleStatus]
        } else {
            Seq::empty()
        }));
        let history = match params.run_status {
            Some(RunStatus::Stop) => {
                let row = ExecHistory {
                    schedule_id: params.schedule_id.clone(),
                    instance_id: params.instance_id.clone(),
                    run_id: params.run_id.clone(),
                    eid: params.base_job.eid.clone(),
                    created_user: params.created_user.clone(),
                    exit_status: match &params.exit_status {
                        Some(text) => text.clone(),
                        None => String::new(),
                    },
                    exit_code: match params.exit_code {
                        Some(code) => code,
                        None => 0,
                    },
                    output: JobLogic::merge_output(&params.stdout, &params.stderr),
                    start_time: params.start_time,
                    end_time: params.end_time,
                    job_type: JobLogic::job_type(params.bundle_output.is_some()).to_owned(),
                };
                assert(row@ =~= history_row(params@).unwrap());
                Some(row)
            },
            _ => None,
        };
        StatusUpdate {
            columns,
            job_type: JobLogic::job_type(params.base_job.is_bundle()).to_owned(),
            history,
        }
    }

    /// Whether a job's callback is due after the report `params`.
    pub fn completed_callback(
        &self,
        enable: bool,
        trigger_on: CompletedCallbackTriggerType,
        params: &UpdateJobParams,
    ) -> (due: bool)
        ensures
            due == callback_due(enable, trigger_on, params@),
    {
        if !enable {
            return false;
        }
        match params.run_status {
            Some(RunStatus::Stop) => {},
            _ => {
                return false;
            },
        }
        match trigger_on {
            CompletedCallbackTriggerType::All => true,
            CompletedCallbackTriggerType::Error => match params.exit_code {
                Some(code) => code != 0,
                None => true,
            },
        }
    }

    /// What the running-status rows of a job are set to when `action` could
    /// not be delivered to the agent.
    pub fn update_run_status(&self, action: JobAction) -> (update: Option<
        (RunStatus, Option<ScheduleStatus>),
    >)
        ensures
            update == undelivered_status(action),
    {
        match action {
            JobAction::StopSupervising => Some(
                (RunStatus::Stop, Some(ScheduleStatus::Unsupervised)),
            ),
            JobAction::StopTimer => Some((RunStatus::Stop, Some(ScheduleStatus::Unscheduled))),
            JobAction::Kill => Some((RunStatus::Stop, None)),
            _ => None,
        }
    }
}

} // verus!
