//! The coordinator's side of scheduling: which actions a schedule type
//! takes, and how the outputs of a bundle's scripts are judged.

use vstd::prelude::*;
use vstd::string::StringExecFns;
use crate::outside::{
    eval_boolean, evaluated, names_unsafe_function, parts, parts_upto, plain, starts_part, word_char,
    MAX_EXPRESSION_PARTS,
};
use crate::report::{bundle_outputs, BundleOutputParams, BundleOutputView};
use crate::text::{chars_of, contains_chars, copy_opt_text, opt_text};
use crate::types::{action_name, JobAction, ScheduleType};

verus! {

/// The coordinator's scheduling logic.
#[derive(Clone, Copy, Debug)]
pub struct JobLogic;

/// Why the coordinator does not dispatch.
#[derive(Clone, Copy, Debug, PartialEq, Eq, Structural)]
pub enum ScheduleError {
    /// The schedule type does not take the action.
    ActionNotAllowed { action: JobAction },
}

/// The text of a [`ScheduleError`].
pub open spec fn schedule_error_message(e: ScheduleError) -> Seq<char> {
    match e {
        ScheduleError::ActionNotAllowed { action } => "cannot "@ + action_name(action)
            + " job with once schedule type"@,
    }
}

impl ScheduleError {
    /// The text of the error.
    pub fn message(&self) -> (text: String)
        ensures
            text@ == schedule_error_message(*self),
    {
        match self {
            ScheduleError::ActionNotAllowed { action } => {
                let mut text = "cannot ".to_owned();
                text.append(action.name());
                text.append(" job with once schedule type");
                text
            },
        }
    }
}

/// Whether a job of `schedule_type` takes `action`: a job that runs once
/// can be run and killed; a job on a timer can also have its timer set and
/// cleared; a daemon can be put under supervision, anew too.
pub open spec fn allowed(action: JobAction, schedule_type: ScheduleType) -> bool {
    match schedule_type {
        ScheduleType::Once => action == JobAction::Exec || action == JobAction::Kill,
        ScheduleType::Timer => action == JobAction::StartTimer || action == JobAction::StopTimer
            || action == JobAction::Exec || action == JobAction::Kill,
        ScheduleType::Daemon => action == JobAction::StartSupervising || action
            == JobAction::RestartSupervising,
        ScheduleType::Flow => false,
    }
}

/// One script of a bundle as the coordinator stores it, with the condition
/// that its output is judged by.
#[derive(Clone, Debug, PartialEq, Eq)]
pub struct BundleScriptRecord {
    pub eid: String,
    pub name: String,
    pub cond_expr: String,
    pub executor_id: u64,
    pub code: String,
}

/// How one script of a bundle fared.
#[derive(Clone, Debug, PartialEq, Eq)]
pub struct BundleScriptResult {
    pub name: String,
    pub eid: String,
    pub cond_expr: String,
    pub exit_code: Option<i32>,
    pub exit_status: Option<String>,
    pub stdout: Option<String>,
    pub stderr: Option<String>,
    pub eval_err: Option<String>,
    pub result: bool,
}

/// The model of a [`BundleScriptResult`].
#[verifier::ext_equal]
pub struct ScriptResultView {
    pub name: Seq<char>,
    pub eid: Seq<char>,
    pub cond_expr: Seq<char>,
    pub exit_code: Option<i32>,
    pub exit_status: Option<Seq<char>>,
    pub stdout: Option<Seq<char>>,
    pub stderr: Option<Seq<char>>,
    pub eval_err: Option<Seq<char>>,
    pub result: bool,
}

impl View for BundleScriptResult {
    type V = ScriptResultView;

    open spec fn view(&self) -> ScriptResultView {
        ScriptResultView {
            name: self.name@,
            eid: self.eid@,
            cond_expr: self.cond_expr@,
            exit_code: self.exit_code,
            exit_status: opt_text(self.exit_status),
            stdout: opt_text(self.stdout),
            stderr: opt_text(self.stderr),
            eval_err: opt_text(self.eval_err),
            result: self.result,
        }
    }
}

/// The first output that belongs to the script `eid`.
pub open spec fn first_output(outputs: Seq<BundleOutputView>, eid: Seq<char>) -> Option<
    BundleOutputView,
>
    decreases outputs.len(),
{
    if outputs.len() == 0 {
        None
    } else if outputs[0].eid == eid {
        Some(outputs[0])
    } else {
        first_output(outputs.drop_first(), eid)
    }
}

/// The expression that judges an output: the output is bound to `$v`, and
/// the script's condition follows.
pub open spec fn condition_text(stdout: Option<Seq<char>>, cond_expr: Seq<char>) -> Seq<char> {
    "$v="@ + (match stdout {
        Some(text) => text,
        None => Seq::empty(),
    }) + "; "@ + cond_expr
}

/// How a script fared, given its output and what the evaluator made of its
/// condition. A script without an output has failed, with nothing to show.
/// A script with an output shows it, and has passed where the condition
/// came to true; where the evaluator raised an error the script has failed
/// and shows the error.
pub open spec fn script_result(
    name: Seq<char>,
    eid: Seq<char>,
    cond_expr: Seq<char>,
    matched: Option<BundleOutputView>,
    verdict: Result<bool, Seq<char>>,
) -> ScriptResultView {
    match matched {
        Some(output) => ScriptResultView {
            name,
            eid,
            cond_expr,
            exit_code: output.exit_code,
            exit_status: output.exit_status,
            stdout: output.stdout,
            stderr: output.stderr,
            eval_err: match verdict {
                Ok(_) => None,
                Err(text) => Some(text),
            },
            result: match verdict {
                Ok(value) => value,
                Err(_) => false,
            },
        },
        None => ScriptResultView {
            name,
            eid,
            cond_expr,
            exit_code: None,
            exit_status: None,
            stdout: None,
            stderr: None,
            eval_err: None,
            result: false,
        },
    }
}

/// Why a condition is not handed to the evaluator; `None` where it is. A
/// condition that names a function that the evaluator cannot be trusted
/// with is turned away, and so is one that is made of more than 128 parts.
pub open spec fn refused(expr: Seq<char>) -> Option<Seq<char>> {
    if names_unsafe_function(expr) {
        Some("the condition names a function that is not evaluated"@)
    } else if parts(expr) > MAX_EXPRESSION_PARTS {
        Some("the condition is made of more than 128 parts"@)
    } else {
        None
    }
}

/// Whether `verdict` can be what becomes of the condition `expr`: the
/// reason where the condition is turned away, what the evaluator makes of
/// it where it is plain, and whatever the evaluator says where it is not.
pub open spec fn verdict_of(expr: Seq<char>, verdict: Result<bool, Seq<char>>) -> bool {
    match refused(expr) {
        Some(reason) => verdict == Err::<bool, Seq<char>>(reason),
        None => plain(expr) ==> verdict == evaluated(expr),
    }
}

/// Whether `result` says how the script `record` fared among `outputs`:
/// the script is judged on the first output that belongs to it, by what
/// becomes of its condition with the output bound; a script without an
/// output has failed.
pub open spec fn judged(
    record: BundleScriptRecord,
    outputs: Seq<BundleOutputView>,
    result: ScriptResultView,
) -> bool {
    let matched = first_output(outputs, record.eid@);
    match matched {
        Some(output) => exists|verdict: Result<bool, Seq<char>>|
            {
                &&& verdict_of(condition_text(output.stdout, record.cond_expr@), verdict)
                &&& result == #[trigger] script_result(
                    record.name@,
                    record.eid@,
                    record.cond_expr@,
                    matched,
                    verdict,
                )
            },
        None => result == script_result(
            record.name@,
            record.eid@,
            record.cond_expr@,
            None,
            Ok(false),
        ),
    }
}

/// What a verdict of the evaluator says, as a model.
pub open spec fn verdict_view(verdict: Result<bool, String>) -> Result<bool, Seq<char>> {
    match verdict {
        Ok(value) => Ok(value),
        Err(text) => Err(text@),
    }
}

fn is_word_char(c: char) -> (word: bool)
    ensures
        word == word_char(c),
{
    ('a' <= c && c <= 'z') || ('A' <= c && c <= 'Z') || ('0' <= c && c <= '9') || c == '_'
}

/// Counts the characters of a text at which a part may start, up to one
/// more than `limit`.
fn count_parts(chars: &Vec<char>, limit: usize) -> (n: usize)
    requires
        limit < usize::MAX,
    ensures
        n <= limit + 1,
        n <= limit ==> n == parts(chars@),
        n == limit + 1 ==> parts(chars@) > limit,
{
    let len = chars.len();
    let mut n: usize = 0;
    let mut i: usize = 0;
    while i < len && n <= limit
        invariant
            len == chars@.len(),
            i <= len,
            limit < usize::MAX,
            n <= limit + 1,
            n == parts_upto(chars@, i as nat),
        decreases len - i,
    {
        let follows_word = i > 0 && is_word_char(chars[i - 1]);
        if chars[i] != ' ' && !(is_word_char(chars[i]) && follows_word) {
            assert(starts_part(chars@, i as int));
            n += 1;
        } else {
            assert(!starts_part(chars@, i as int));
        }
        i += 1;
    }
    proof {
        lemma_parts_grow(chars@, i as nat, len as nat);
    }
    n
}

/// The count of parts does not go down along the text.
proof fn lemma_parts_grow(expr: Seq<char>, i: nat, j: nat)
    requires
        i <= j,
    ensures
        parts_upto(expr, i) <= parts_upto(expr, j),
    decreases j - i,
{
    if i < j {
        lemma_parts_grow(expr, i, (j - 1) as nat);
    }
}

impl JobLogic {
    /// Checks that a job of `schedule_type` takes `action`. Flow schedules
    /// are not dispatched by this logic.
    pub fn check_schedule_type(&self, action: JobAction, schedule_type: ScheduleType) -> (out: Result<
        (),
        ScheduleError,
    >)
        requires
            schedule_type != ScheduleType::Flow,
        ensures
            match out {
                Ok(_) => allowed(action, schedule_type),
                Err(e) => !allowed(action, schedule_type) && e == (ScheduleError::ActionNotAllowed {
                    action,
                }),
            },
    {
        let ok = match schedule_type {
            ScheduleType::Once => match action {
                JobAction::Exec | JobAction::Kill => true,
                _ => false,
            },
            ScheduleType::Timer => match action {
                JobAction::StartTimer | JobAction::StopTimer | JobAction::Exec | JobAction::Kill => true,
                _ => false,
            },
            ScheduleType::Daemon => match action {
                JobAction::StartSupervising | JobAction::RestartSupervising => true,
                _ => false,
            },
            ScheduleType::Flow => false,
        };
        if ok {
            Ok(())
        } else {
            Err(ScheduleError::ActionNotAllowed { action })
        }
    }

    /// The expression that judges `stdout` by `cond_expr`.
    pub fn condition(stdout: &Option<String>, cond_expr: &str) -> (expr: String)
        ensures
            expr@ == condition_text(opt_text(*stdout), cond_expr@),
    {
        let mut expr = "$v=".to_owned();
        match stdout {
            Some(text) => {
                expr.append(text.as_str());
            },
            None => {
                assert(expr@ + Seq::<char>::empty() =~= expr@);
            },
        }
        expr.append("; ");
        expr.append(cond_expr);
        expr
    }

    /// What becomes of a condition: it is turned away with a reason where
    /// it names a function that the evaluator cannot be trusted with or is
    /// made of too many parts, and handed to the evaluator as it is
    /// otherwise.
    pub fn verdict(expr: &str) -> (out: Result<bool, String>)
        ensures
            verdict_of(expr@, verdict_view(out)),
    {
        let chars = chars_of(expr);
        let substring = chars_of("str::substring");
        let shl = chars_of("shl");
        let shr = chars_of("shr");
        let abs = chars_of("math::abs");
        if contains_chars(&chars, &substring) || contains_chars(&chars, &shl) || contains_chars(
            &chars,
            &shr,
        ) || contains_chars(&chars, &abs) {
            return Err("the condition names a function that is not evaluated".to_owned());
        }
        if count_parts(&chars, MAX_EXPRESSION_PARTS) > MAX_EXPRESSION_PARTS {
            return Err("the condition is made of more than 128 parts".to_owned());
        }
        eval_boolean(expr)
    }

    /// How a script fared, given the output that belongs to it and what the
    /// evaluator made of its condition.
    pub fn judge(
        record: &BundleScriptRecord,
        matched: Option<&BundleOutputParams>,
        verdict: Result<bool, String>,
    ) -> (out: BundleScriptResult)
        ensures
            out@ == script_result(
                record.name@,
                record.eid@,
                record.cond_expr@,
                match matched {
                    Some(output) => Some(output@),
                    None => None,
                },
                verdict_view(verdict),
            ),
    {
        match matched {
            Some(output) => {
                let (result, eval_err) = match verdict {
                    Ok(value) => (value, None),
                    Err(text) => (false, Some(text)),
                };
                BundleScriptResult {
                    name: record.name.clone(),
                    eid: record.eid.clone(),
                    cond_expr: record.cond_expr.clone(),
                    exit_code: output.exit_code,
                    exit_status: copy_opt_text(&output.exit_status),
                    stdout: copy_opt_text(&output.stdout),
                    stderr: copy_opt_text(&output.stderr),
                    eval_err,
                    result,
                }
            },
            None => BundleScriptResult {
                name: record.name.clone(),
                eid: record.eid.clone(),
                cond_expr: record.cond_expr.clone(),
                exit_code: None,
                exit_status: None,
                stdout: None,
                stderr: None,
                eval_err: None,
                result: false,
            },
        }
    }

    /// The first of `outputs` that belongs to the script `eid`.
    pub fn find_output<'a>(outputs: &'a Vec<BundleOutputParams>, eid: &String) -> (found: Option<
        &'a BundleOutputParams,
    >)
        ensures
            match found {
                Some(output) => first_output(bundle_outputs(outputs@), eid@) == Some(output@),
                None => first_output(bundle_outputs(outputs@), eid@) is None,
            },
    {
        let ghost all = bundle_outputs(outputs@);
        let mut i: usize = 0;
        assert(all.skip(0) =~= all);
        while i < outputs.len()
            invariant
                i <= outputs@.len(),
                all == bundle_outputs(outputs@),
                first_output(all, eid@) == first_output(all.skip(i as int), eid@),
            decreases outputs@.len() - i,
        {
            assert(all.skip(i as int)[0] == outputs@[i as int]@);
            if outputs[i].eid == *eid {
                return Some(&outputs[i]);
            }
            assert(all.skip(i as int).drop_first() =~= all.skip(i + 1));
            i += 1;
        }
        None
    }

    /// Judges the scripts of a bundle: for each record, in the records'
    /// order, the first output that belongs to the script, judged by the
    /// script's condition.
    pub fn eval(&self, record: Vec<BundleScriptRecord>, output: Vec<BundleOutputParams>) -> (out: Vec<
        BundleScriptResult,
    >)
        ensures
            out@.len() == record@.len(),
            forall|i: int|
                0 <= i < out@.len() ==> judged(
                    record@[i],
                    bundle_outputs(output@),
                    (#[trigger] out@[i])@,
                ),
    {
        let mut out: Vec<BundleScriptResult> = Vec::new();
        let mut i: usize = 0;
        while i < record.len()
            invariant
                i <= record@.len(),
                out@.len() == i,
                forall|j: int|
                    0 <= j < i ==> judged(
                        record@[j],
                        bundle_outputs(output@),
                        (#[trigger] out@[j])@,
                    ),
            decreases record@.len() - i,
        {
            let matched = JobLogic::find_output(&output, &record[i].eid);
            let verdict = match matched {
                Some(found) => {
                    let expr = JobLogic::condition(&found.stdout, record[i].cond_expr.as_str());
                    JobLogic::verdict(expr.as_str())
                },
                None => Ok(false),
            };
            let ghost seen = verdict_view(verdict);
            let result = JobLogic::judge(&record[i], matched, verdict);
            assert(judged(record@[i as int], bundle_outputs(output@), result@)) by {
                let matched_view = first_output(bundle_outputs(output@), record@[i as int].eid@);
                assert(result@ == script_result(
                    record@[i as int].name@,
                    record@[i as int].eid@,
                    record@[i as int].cond_expr@,
                    matched_view,
                    seen,
                ));
                if matched_view is Some {
                    assert(verdict_of(
                        condition_text(
                            matched_view.unwrap().stdout,
                            record@[i as int].cond_expr@,
                        ),
                        seen,
                    ));
                }
            }
            out.push(result);
            i += 1;
        }
        out
    }
}

} // verus!
