//! Why the kernel turns a request away.

use vstd::prelude::*;
use crate::text::{decimal, decimal_text};
use vstd::string::StringExecFns;

verus! {

/// Why the kernel turns a request away.
#[derive(Clone, Debug, PartialEq, Eq)]
pub enum ReactError {
    /// The action starts no run that the registry keeps.
    InvalidAction,
    /// The schedule type has no list of runs.
    InvalidScheduleType,
    /// The job already has `max_parallel` runs of the mode in flight.
    MaxParallel { eid: String, max_parallel: u32 },
    /// The dispatch does not say which instance it is for.
    MissingInstanceId,
    /// Every run id that was drawn for the run is the id of a live run.
    NoFreshRunId,
}

/// The model of a [`ReactError`].
pub enum ErrorView {
    InvalidAction,
    InvalidScheduleType,
    MaxParallel { eid: Seq<char>, max_parallel: u32 },
    MissingInstanceId,
    NoFreshRunId,
}

impl View for ReactError {
    type V = ErrorView;

    open spec fn view(&self) -> ErrorView {
        match self {
            ReactError::InvalidAction => ErrorView::InvalidAction,
            ReactError::InvalidScheduleType => ErrorView::InvalidScheduleType,
            ReactError::MissingInstanceId => ErrorView::MissingInstanceId,
            ReactError::NoFreshRunId => ErrorView::NoFreshRunId,
            ReactError::MaxParallel { eid, max_parallel } => ErrorView::MaxParallel {
                eid: eid@,
                max_parallel: *max_parallel,
            },
        }
    }
}

/// The text that the coordinator is given for an error.
pub open spec fn error_message(e: ErrorView) -> Seq<char> {
    match e {
        ErrorView::InvalidAction => "invalid action"@,
        ErrorView::InvalidScheduleType => "invalid schedule type"@,
        ErrorView::MissingInstanceId => "not found instance_id in params"@,
        ErrorView::NoFreshRunId => "cannot find an unused run id"@,
        ErrorView::MaxParallel { eid, max_parallel } => "job "@ + eid
            + " is running, max parallel "@ + decimal(max_parallel as nat),
    }
}

impl ReactError {
    /// The text that the coordinator is given for this error.
    pub fn message(&self) -> (text: String)
        ensures
            text@ == error_message(self@),
    {
        match self {
            ReactError::InvalidAction => "invalid action".to_owned(),
            ReactError::InvalidScheduleType => "invalid schedule type".to_owned(),
            ReactError::MissingInstanceId => "not found instance_id in params".to_owned(),
            ReactError::NoFreshRunId => "cannot find an unused run id".to_owned(),
            ReactError::MaxParallel { eid, max_parallel } => {
                let mut text = "job ".to_owned();
                text.append(eid.as_str());
                text.append(" is running, max parallel ");
                let n = decimal_text(*max_parallel);
                text.append(n.as_str());
                text
            },
        }
    }
}

} // verus!
