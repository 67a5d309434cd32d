//! The verbs, modes and statuses that the coordinator and the agent exchange.

use vstd::prelude::*;
use crate::text::same_text;

verus! {

/// What a dispatch asks the agent to do with a job.
#[derive(Clone, Copy, Debug, PartialEq, Eq, Structural)]
pub enum JobAction {
    Exec,
    Kill,
    StartTimer,
    StopTimer,
    StartSupervising,
    StopSupervising,
    RestartSupervising,
}

/// How a job is scheduled.
#[derive(Clone, Copy, Debug, PartialEq, Eq, Structural)]
pub enum ScheduleType {
    Once,
    Timer,
    Flow,
    Daemon,
}

/// Where one execution stands.
#[derive(Clone, Copy, Debug, PartialEq, Eq, Structural)]
pub enum RunStatus {
    Prepare,
    Running,
    Stop,
}

/// Where a schedule stands.
#[derive(Clone, Copy, Debug, PartialEq, Eq, Structural)]
pub enum ScheduleStatus {
    Scheduling,
    Unscheduled,
    Supervising,
    Unsupervised,
    Prepare,
}

/// What a runtime request asks the agent to stop.
#[derive(Clone, Copy, Debug, PartialEq, Eq, Structural)]
pub enum RuntimeAction {
    StopTimer,
    StopSupervising,
    Kill,
}

/// The three lists of live runs that the registry keeps for a job.
#[derive(Clone, Copy, Debug, PartialEq, Eq, Structural)]
pub enum RunMode {
    Once,
    Timer,
    Daemon,
}

/// The list that a run started by `action` is recorded in, if any.
pub open spec fn mode_of_action(action: JobAction) -> Option<RunMode> {
    match action {
        JobAction::Exec => Some(RunMode::Once),
        JobAction::StartTimer => Some(RunMode::Timer),
        JobAction::StartSupervising => Some(RunMode::Daemon),
        _ => None,
    }
}

/// The list that holds the runs of a schedule type, if any.
pub open spec fn mode_of_schedule(schedule_type: ScheduleType) -> Option<RunMode> {
    match schedule_type {
        ScheduleType::Once => Some(RunMode::Once),
        ScheduleType::Timer => Some(RunMode::Timer),
        ScheduleType::Daemon => Some(RunMode::Daemon),
        ScheduleType::Flow => None,
    }
}

/// The schedule type under which the runs of a list are reported.
pub open spec fn schedule_of_mode(mode: RunMode) -> ScheduleType {
    match mode {
        RunMode::Once => ScheduleType::Once,
        RunMode::Timer => ScheduleType::Timer,
        RunMode::Daemon => ScheduleType::Daemon,
    }
}

impl RunMode {
    /// The list that a run started by `action` is recorded in.
    pub fn of_action(action: JobAction) -> (mode: Option<RunMode>)
        ensures
            mode == mode_of_action(action),
    {
        match action {
            JobAction::Exec => Some(RunMode::Once),
            JobAction::StartTimer => Some(RunMode::Timer),
            JobAction::StartSupervising => Some(RunMode::Daemon),
            _ => None,
        }
    }

    /// The list that holds the runs of `schedule_type`.
    pub fn of_schedule(schedule_type: ScheduleType) -> (mode: Option<RunMode>)
        ensures
            mode == mode_of_schedule(schedule_type),
    {
        match schedule_type {
            ScheduleType::Once => Some(RunMode::Once),
            ScheduleType::Timer => Some(RunMode::Timer),
            ScheduleType::Daemon => Some(RunMode::Daemon),
            ScheduleType::Flow => None,
        }
    }

    /// The schedule type under which the runs of this list are reported.
    pub fn schedule_type(self) -> (schedule_type: ScheduleType)
        ensures
            schedule_type == schedule_of_mode(self),
    {
        match self {
            RunMode::Once => ScheduleType::Once,
            RunMode::Timer => ScheduleType::Timer,
            RunMode::Daemon => ScheduleType::Daemon,
        }
    }
}

/// The wire name of an action.
pub open spec fn action_name(action: JobAction) -> Seq<char> {
    match action {
        JobAction::Exec => "exec"@,
        JobAction::Kill => "kill"@,
        JobAction::StartTimer => "start_timer"@,
        JobAction::StopTimer => "stop_timer"@,
        JobAction::StartSupervising => "start_supervising"@,
        JobAction::StopSupervising => "stop_supervising"@,
        JobAction::RestartSupervising => "restart_supervising"@,
    }
}

/// The stored name of a schedule type.
pub open spec fn schedule_type_name(schedule_type: ScheduleType) -> Seq<char> {
    match schedule_type {
        ScheduleType::Once => "once"@,
        ScheduleType::Timer => "timer"@,
        ScheduleType::Flow => "flow"@,
        ScheduleType::Daemon => "daemon"@,
    }
}

/// The stored name of a run status.
pub open spec fn run_status_name(status: RunStatus) -> Seq<char> {
    match status {
        RunStatus::Prepare => "prepare"@,
        RunStatus::Running => "running"@,
        RunStatus::Stop => "stop"@,
    }
}

/// The stored name of a schedule status.
pub open spec fn schedule_status_name(status: ScheduleStatus) -> Seq<char> {
    match status {
        ScheduleStatus::Scheduling => "scheduling"@,
        ScheduleStatus::Unscheduled => "unscheduled"@,
        ScheduleStatus::Supervising => "supervising"@,
        ScheduleStatus::Unsupervised => "unsupervised"@,
        ScheduleStatus::Prepare => "prepare"@,
    }
}

/// The schedule type that a stored name stands for.
pub open spec fn schedule_type_named(name: Seq<char>) -> Option<ScheduleType> {
    if name == "once"@ {
        Some(ScheduleType::Once)
    } else if name == "timer"@ {
        Some(ScheduleType::Timer)
    } else if name == "flow"@ {
        Some(ScheduleType::Flow)
    } else if name == "daemon"@ {
        Some(ScheduleType::Daemon)
    } else {
        None
    }
}

/// The action that a wire name stands for.
pub open spec fn action_named(name: Seq<char>) -> Option<JobAction> {
    if name == "exec"@ {
        Some(JobAction::Exec)
    } else if name == "kill"@ {
        Some(JobAction::Kill)
    } else if name == "start_timer"@ {
        Some(JobAction::StartTimer)
    } else if name == "stop_timer"@ {
        Some(JobAction::StopTimer)
    } else if name == "start_supervising"@ {
        Some(JobAction::StartSupervising)
    } else if name == "stop_supervising"@ {
        Some(JobAction::StopSupervising)
    } else if name == "restart_supervising"@ {
        Some(JobAction::RestartSupervising)
    } else {
        None
    }
}

/// The run status that a stored name stands for.
pub open spec fn run_status_named(name: Seq<char>) -> Option<RunStatus> {
    if name == "prepare"@ {
        Some(RunStatus::Prepare)
    } else if name == "running"@ {
        Some(RunStatus::Running)
    } else if name == "stop"@ {
        Some(RunStatus::Stop)
    } else {
        None
    }
}

/// The schedule status that a stored name stands for.
pub open spec fn schedule_status_named(name: Seq<char>) -> Option<ScheduleStatus> {
    if name == "scheduling"@ {
        Some(ScheduleStatus::Scheduling)
    } else if name == "unscheduled"@ {
        Some(ScheduleStatus::Unscheduled)
    } else if name == "supervising"@ {
        Some(ScheduleStatus::Supervising)
    } else if name == "unsupervised"@ {
        Some(ScheduleStatus::Unsupervised)
    } else if name == "prepare"@ {
        Some(ScheduleStatus::Prepare)
    } else {
        None
    }
}

impl JobAction {
    /// Reads a wire name back; `None` for any other text.
    pub fn parse(name: &str) -> (parsed: Option<JobAction>)
        ensures
            parsed == action_named(name@),
    {
        if same_text(name, "exec") {
            Some(JobAction::Exec)
        } else if same_text(name, "kill") {
            Some(JobAction::Kill)
        } else if same_text(name, "start_timer") {
            Some(JobAction::StartTimer)
        } else if same_text(name, "stop_timer") {
            Some(JobAction::StopTimer)
        } else if same_text(name, "start_supervising") {
            Some(JobAction::StartSupervising)
        } else if same_text(name, "stop_supervising") {
            Some(JobAction::StopSupervising)
        } else if same_text(name, "restart_supervising") {
            Some(JobAction::RestartSupervising)
        } else {
            None
        }
    }

    /// The wire name of the action.
    pub fn name(self) -> (name: &'static str)
        ensures
            name@ == action_name(self),
    {
        match self {
            JobAction::Exec => "exec",
            JobAction::Kill => "kill",
            JobAction::StartTimer => "start_timer",
            JobAction::StopTimer => "stop_timer",
            JobAction::StartSupervising => "start_supervising",
            JobAction::StopSupervising => "stop_supervising",
            JobAction::RestartSupervising => "restart_supervising",
        }
    }
}

impl ScheduleType {
    /// The stored name of the schedule type.
    pub fn name(self) -> (name: &'static str)
        ensures
            name@ == schedule_type_name(self),
    {
        match self {
            ScheduleType::Once => "once",
            ScheduleType::Timer => "timer",
            ScheduleType::Flow => "flow",
            ScheduleType::Daemon => "daemon",
        }
    }

    /// Reads a stored name back; `None` for any other text.
    pub fn parse(name: &str) -> (parsed: Option<ScheduleType>)
        ensures
            parsed == schedule_type_named(name@),
    {
        if same_text(name, "once") {
            Some(ScheduleType::Once)
        } else if same_text(name, "timer") {
            Some(ScheduleType::Timer)
        } else if same_text(name, "flow") {
            Some(ScheduleType::Flow)
        } else if same_text(name, "daemon") {
            Some(ScheduleType::Daemon)
        } else {
            None
        }
    }
}

impl RunStatus {
    /// Reads a stored name back; `None` for any other text.
    pub fn parse(name: &str) -> (parsed: Option<RunStatus>)
        ensures
            parsed == run_status_named(name@),
    {
        if same_text(name, "prepare") {
            Some(RunStatus::Prepare)
        } else if same_text(name, "running") {
            Some(RunStatus::Running)
        } else if same_text(name, "stop") {
            Some(RunStatus::Stop)
        } else {
            None
        }
    }

    /// The stored name of the run status.
    pub fn name(self) -> (name: &'static str)
        ensures
            name@ == run_status_name(self),
    {
        match self {
            RunStatus::Prepare => "prepare",
            RunStatus::Running => "running",
            RunStatus::Stop => "stop",
        }
    }
}

impl ScheduleStatus {
    /// Reads a stored name back; `None` for any other text.
    pub fn parse(name: &str) -> (parsed: Option<ScheduleStatus>)
        ensures
            parsed == schedule_status_named(name@),
    {
        if same_text(name, "scheduling") {
            Some(ScheduleStatus::Scheduling)
        } else if same_text(name, "unscheduled") {
            Some(ScheduleStatus::Unscheduled)
        } else if same_text(name, "supervising") {
            Some(ScheduleStatus::Supervising)
        } else if same_text(name, "unsupervised") {
            Some(ScheduleStatus::Unsupervised)
        } else if same_text(name, "prepare") {
            Some(ScheduleStatus::Prepare)
        } else {
            None
        }
    }

    /// The stored name of the schedule status.
    pub fn name(self) -> (name: &'static str)
        ensures
            name@ == schedule_status_name(self),
    {
        match self {
            ScheduleStatus::Scheduling => "scheduling",
            ScheduleStatus::Unscheduled => "unscheduled",
            ScheduleStatus::Supervising => "supervising",
            ScheduleStatus::Unsupervised => "unsupervised",
            ScheduleStatus::Prepare => "prepare",
        }
    }
}

/// Every name is read back as what it names: the names of the actions,
/// of the schedule types, of the run statuses and of the schedule statuses
/// are pairwise different within their kind.
pub proof fn lemma_names_round_trip(
    action: JobAction,
    schedule_type: ScheduleType,
    run_status: RunStatus,
    schedule_status: ScheduleStatus,
)
    ensures
        action_named(action_name(action)) == Some(action),
        schedule_type_named(schedule_type_name(schedule_type)) == Some(schedule_type),
        run_status_named(run_status_name(run_status)) == Some(run_status),
        schedule_status_named(schedule_status_name(schedule_status)) == Some(schedule_status),
{
    reveal_strlit("exec");
    reveal_strlit("kill");
    reveal_strlit("start_timer");
    reveal_strlit("stop_timer");
    reveal_strlit("start_supervising");
    reveal_strlit("stop_supervising");
    reveal_strlit("restart_supervising");
    reveal_strlit("once");
    reveal_strlit("timer");
    reveal_strlit("flow");
    reveal_strlit("daemon");
    reveal_strlit("prepare");
    reveal_strlit("running");
    reveal_strlit("stop");
    reveal_strlit("scheduling");
    reveal_strlit("unscheduled");
    reveal_strlit("supervising");
    reveal_strlit("unsupervised");
    assert("exec"@.len() == 4 && "exec"@[0] == 'e');
    assert("kill"@.len() == 4 && "kill"@[0] == 'k');
    assert("start_timer"@.len() == 11 && "start_timer"@[2] == 'a');
    assert("stop_timer"@.len() == 10);
    assert("start_supervising"@.len() == 17 && "start_supervising"@[0] == 's');
    assert("stop_supervising"@.len() == 16);
    assert("restart_supervising"@.len() == 19);
    assert("once"@.len() == 4 && "once"@[0] == 'o');
    assert("timer"@.len() == 5);
    assert("flow"@.len() == 4 && "flow"@[0] == 'f');
    assert("daemon"@.len() == 6);
    assert("prepare"@.len() == 7 && "prepare"@[0] == 'p');
    assert("running"@.len() == 7 && "running"@[0] == 'r');
    assert("stop"@.len() == 4);
    assert("scheduling"@.len() == 10);
    assert("unscheduled"@.len() == 11 && "unscheduled"@[2] == 's');
    assert("supervising"@.len() == 11 && "supervising"@[2] == 'p');
    assert("unsupervised"@.len() == 12);
}

} // verus!
