//! What the agent answers to a request of the coordinator.

use vstd::prelude::*;
use crate::error::{error_message, ReactError};
use crate::report::{outcome_view, ExecOutput, ExecOutputView};
use crate::text::{copy_opt_text, opt_text};

verus! {

/// The code of an answer to a request that was carried out.
pub const SUCCESS_CODE: u32 = 20000;

/// The code of an answer to a request that failed.
pub const FAILURE_CODE: u32 = 50000;

/// What the coordinator is given of an execution that it waited for.
#[derive(Clone, Debug, PartialEq, Eq)]
pub struct SyncOutput {
    pub stdout: Option<String>,
    pub exit_code: Option<i32>,
    pub stderr: Option<String>,
}

/// The model of a [`SyncOutput`].
#[verifier::ext_equal]
pub struct SyncOutputView {
    pub stdout: Option<Seq<char>>,
    pub exit_code: Option<i32>,
    pub stderr: Option<Seq<char>>,
}

impl View for SyncOutput {
    type V = SyncOutputView;

    open spec fn view(&self) -> SyncOutputView {
        SyncOutputView {
            stdout: opt_text(self.stdout),
            exit_code: self.exit_code,
            stderr: opt_text(self.stderr),
        }
    }
}

/// What an answer carries besides its code and message.
#[derive(Clone, Debug, PartialEq, Eq)]
pub enum ReplyData {
    /// The output of an execution that the coordinator waited for.
    Output(SyncOutput),
    /// What a service beside the kernel gave, as the text of a JSON value.
    Json(String),
}

/// The model of a [`ReplyData`].
pub enum ReplyDataView {
    Output(SyncOutputView),
    Json(Seq<char>),
}

impl View for ReplyData {
    type V = ReplyDataView;

    open spec fn view(&self) -> ReplyDataView {
        match self {
            ReplyData::Output(output) => ReplyDataView::Output(output@),
            ReplyData::Json(text) => ReplyDataView::Json(text@),
        }
    }
}

/// The model of optional data.
pub open spec fn opt_data(data: Option<ReplyData>) -> Option<ReplyDataView> {
    match data {
        Some(d) => Some(d@),
        None => None,
    }
}

/// An answer: a code, a message and, where there is something to hand
/// back, data.
#[derive(Clone, Debug, PartialEq, Eq)]
pub struct Reply {
    pub code: u32,
    pub msg: String,
    pub data: Option<ReplyData>,
}

/// The model of a [`Reply`].
#[verifier::ext_equal]
pub struct ReplyView {
    pub code: u32,
    pub msg: Seq<char>,
    pub data: Option<ReplyDataView>,
}

impl View for Reply {
    type V = ReplyView;

    open spec fn view(&self) -> ReplyView {
        ReplyView {
            code: self.code,
            msg: self.msg@,
            data: opt_data(self.data),
        }
    }
}

/// The answer to a request that was carried out.
pub open spec fn success_reply(data: Option<ReplyDataView>) -> ReplyView {
    ReplyView { code: SUCCESS_CODE, msg: "success"@, data }
}

/// The answer to a request that failed.
pub open spec fn failure_reply(msg: Seq<char>) -> ReplyView {
    ReplyView { code: FAILURE_CODE, msg, data: None }
}

/// What the coordinator is given of an executor's output.
pub open spec fn sync_output(output: ExecOutputView) -> SyncOutputView {
    SyncOutputView { stdout: output.stdout, exit_code: output.exit_code, stderr: output.stderr }
}

/// The answer to a dispatch whose execution the coordinator waited for:
/// the output where the executor gave one, and a failure with the error's
/// text where it did not.
pub open spec fn outcome_reply(outcome: Result<ExecOutputView, Seq<char>>) -> ReplyView {
    match outcome {
        Ok(output) => success_reply(Some(ReplyDataView::Output(sync_output(output)))),
        Err(text) => failure_reply(text),
    }
}

impl Reply {
    /// The answer to a request that was carried out.
    pub fn success(data: Option<ReplyData>) -> (reply: Reply)
        ensures
            reply@ == success_reply(opt_data(data)),
    {
        Reply { code: SUCCESS_CODE, msg: "success".to_owned(), data }
    }

    /// The answer to a request that failed with `msg`.
    pub fn failure(msg: String) -> (reply: Reply)
        ensures
            reply@ == failure_reply(msg@),
    {
        Reply { code: FAILURE_CODE, msg, data: None }
    }

    /// The answer to a request that the kernel turned away.
    pub fn refused(error: &ReactError) -> (reply: Reply)
        ensures
            reply@ == failure_reply(error_message(error@)),
    {
        Reply::failure(error.message())
    }

    /// The answer to a dispatch whose execution the coordinator waited for.
    pub fn of_outcome(outcome: &Result<ExecOutput, String>) -> (reply: Reply)
        ensures
            reply@ == outcome_reply(outcome_view(*outcome)),
    {
        match outcome {
            Ok(output) => Reply::success(
                Some(
                    ReplyData::Output(
                        SyncOutput {
                            stdout: copy_opt_text(&output.stdout),
                            exit_code: output.exit_code,
                            stderr: copy_opt_text(&output.stderr),
                        },
                    ),
                ),
            ),
            Err(text) => Reply::failure(text.clone()),
        }
    }

    /// Whether the answer reports success.
    pub fn is_success(&self) -> (ok: bool)
        ensures
            ok == (self@.code == SUCCESS_CODE),
    {
        self.code == SUCCESS_CODE
    }
}

} // verus!
