//! The items of other crates that the library uses, and what it takes for
//! granted about them. Nothing in this file is proved.

use vstd::prelude::*;
use crate::text::occurs;

verus! {

/// `tokio::sync::mpsc::Sender`: the sending half of a bounded channel.
/// The library carries such values and never looks inside them.
#[verifier::external_type_specification]
#[verifier::external_body]
#[verifier::reject_recursive_types(T)]
pub struct ExSender<T>(tokio::sync::mpsc::Sender<T>);

/// `tokio::sync::mpsc::UnboundedSender`: the sending half of an unbounded
/// channel. The library carries such values and never looks inside them.
#[verifier::external_type_specification]
#[verifier::external_body]
#[verifier::reject_recursive_types(T)]
pub struct ExUnboundedSender<T>(tokio::sync::mpsc::UnboundedSender<T>);

/// `tokio::sync::mpsc::Receiver`: the receiving half of a bounded channel.
/// The library hands such values on and never looks inside them.
#[verifier::external_type_specification]
#[verifier::external_body]
#[verifier::reject_recursive_types(T)]
pub struct ExReceiver<T>(tokio::sync::mpsc::Receiver<T>);

/// `tokio::sync::mpsc::UnboundedReceiver`: the receiving half of an
/// unbounded channel. The library hands such values on and never looks
/// inside them.
#[verifier::external_type_specification]
#[verifier::external_body]
#[verifier::reject_recursive_types(T)]
pub struct ExUnboundedReceiver<T>(tokio::sync::mpsc::UnboundedReceiver<T>);

/// `tokio::sync::mpsc::channel` makes a bounded channel. It panics on a
/// buffer of zero and on one above the semaphore's limit, which is
/// `usize::MAX >> 3`; those are left out. Nothing is claimed of the two
/// halves.
pub assume_specification<T>[ tokio::sync::mpsc::channel::<T> ](buffer: usize) -> (halves: (
    tokio::sync::mpsc::Sender<T>,
    tokio::sync::mpsc::Receiver<T>,
))
    requires
        0 < buffer <= usize::MAX / 8,
;

/// `tokio::sync::mpsc::unbounded_channel` makes an unbounded channel.
/// Nothing is claimed of the two halves.
pub assume_specification<T>[ tokio::sync::mpsc::unbounded_channel::<T> ]() -> (halves: (
    tokio::sync::mpsc::UnboundedSender<T>,
    tokio::sync::mpsc::UnboundedReceiver<T>,
));

/// `uuid::Uuid`: the handle that the cron engine gives to a schedule. The
/// library stores such values and never looks inside them.
#[verifier::external_type_specification]
#[verifier::external_body]
pub struct ExUuid(uuid::Uuid);

/// Puts a value into an unbounded channel with
/// `tokio::sync::mpsc::UnboundedSender::send` and tells whether the channel
/// took it. The send fails when the receiving half has been closed or
/// dropped, which the sender cannot know, so nothing is claimed of the
/// result. (Tokio ends the process should a channel ever hold as many
/// messages as a `usize` counts; no memory holds that many.)
#[verifier::external_body]
pub(crate) fn post<T>(inbox: &tokio::sync::mpsc::UnboundedSender<T>, value: T) -> (taken: bool) {
    inbox.send(value).is_ok()
}

/// `tokio::sync::oneshot::Sender`: the sending half of a channel for one
/// value. The library stores such values and never looks inside them.
#[verifier::external_type_specification]
#[verifier::external_body]
#[verifier::reject_recursive_types(T)]
pub struct ExOneshotSender<T>(tokio::sync::oneshot::Sender<T>);

/// `tokio::sync::oneshot::Receiver`: the receiving half of a channel for
/// one value. The library hands such values on and never looks inside them.
#[verifier::external_type_specification]
#[verifier::external_body]
#[verifier::reject_recursive_types(T)]
pub struct ExOneshotReceiver<T>(tokio::sync::oneshot::Receiver<T>);

/// `tokio::sync::oneshot::error::RecvError`: what waiting on a
/// `tokio::sync::oneshot::Receiver` gives when the sending half is gone.
/// The library never makes or reads such a value.
#[verifier::external_type_specification]
#[verifier::external_body]
pub struct ExRecvError(tokio::sync::oneshot::error::RecvError);

/// `tokio::sync::oneshot::channel` makes a channel for one value. Nothing
/// is claimed of the two halves.
pub assume_specification<T>[ tokio::sync::oneshot::channel::<T> ]() -> (halves: (
    tokio::sync::oneshot::Sender<T>,
    tokio::sync::oneshot::Receiver<T>,
));

/// Hands a value to the task that waits for it, with
/// `tokio::sync::oneshot::Sender::send`, and tells whether the task was
/// still waiting. Whether it was depends on that task, so nothing is
/// claimed of the result.
#[verifier::external_body]
pub(crate) fn hand_over<T>(slot: tokio::sync::oneshot::Sender<T>, value: T) -> (taken: bool) {
    slot.send(value).is_ok()
}

/// Offers one kill signal to a run through `tokio::sync::mpsc::Sender::try_send`
/// and tells whether the channel took it. The channel refuses when the
/// receiver is gone or when a signal is already waiting in it; which of
/// these happens depends on the receiving task, so nothing is claimed of
/// the result.
#[verifier::external_body]
pub(crate) fn offer_kill(kill: &tokio::sync::mpsc::Sender<()>) -> (taken: bool) {
    kill.try_send(()).is_ok()
}

/// The most parts that an expression handed to the evaluator is made of.
pub const MAX_EXPRESSION_PARTS: usize = 128;

/// Whether the text names one of the evaluator's built-in functions that
/// can panic: `str::substring` cuts its subject at byte offsets without
/// regard to character boundaries, and `shl`, `shr` and `math::abs`
/// overflow on some integers where overflow is checked. A text that holds
/// one of these names anywhere counts, whatever stands around the name.
pub open spec fn names_unsafe_function(expr: Seq<char>) -> bool {
    ||| occurs(expr, "str::substring"@)
    ||| occurs(expr, "shl"@)
    ||| occurs(expr, "shr"@)
    ||| occurs(expr, "math::abs"@)
}

/// Whether the character is a letter of the English alphabet, a digit or
/// an underscore: the characters that the evaluator never cuts a word at.
pub open spec fn word_char(c: char) -> bool {
    ||| 'a' <= c <= 'z'
    ||| 'A' <= c <= 'Z'
    ||| '0' <= c <= '9'
    ||| c == '_'
}

/// Whether a part may start at `i`: at every character but a space and
/// but a word character that follows a word character.
pub open spec fn starts_part(expr: Seq<char>, i: int) -> bool {
    &&& 0 <= i < expr.len()
    &&& expr[i] != ' '
    &&& !(word_char(expr[i]) && i > 0 && word_char(expr[i - 1]))
}

/// At how many of the first `n` characters a part may start.
pub open spec fn parts_upto(expr: Seq<char>, n: nat) -> nat
    decreases n,
{
    if n == 0 {
        0
    } else {
        let here: nat = if starts_part(expr, n - 1) {
            1
        } else {
            0
        };
        parts_upto(expr, (n - 1) as nat) + here
    }
}

/// A bound on the parts that the evaluator reads out of the text: every
/// word, operator, bracket and text in quotes holds a character at which a
/// part may start.
pub open spec fn parts(expr: Seq<char>) -> nat {
    parts_upto(expr, expr.len())
}

/// The expressions that the evaluator is trusted with.
///
/// They name none of the functions that can panic. And they are made of
/// few parts: the evaluator builds, walks and drops a tree by recursion,
/// and the tree of an expression is no deeper than the expression has
/// parts, whether it nests brackets, prefix operators, chains of operators
/// or function calls.
pub open spec fn evaluable(expr: Seq<char>) -> bool {
    &&& !names_unsafe_function(expr)
    &&& parts(expr) <= MAX_EXPRESSION_PARTS
}

/// Whether the expression stays clear of what the evaluator leaves to the
/// platform: its power operator and its `math::` functions, whose results
/// come from the platform's floating-point routines and may differ from
/// one machine to another in the last digit, and its `str::` functions,
/// which follow the character tables of the standard library at hand.
pub open spec fn plain(expr: Seq<char>) -> bool {
    !occurs(expr, "math::"@) && !occurs(expr, "^"@) && !occurs(expr, "str::"@)
}

/// What `evalexpr::eval_boolean` makes of a plain expression: the boolean
/// that the expression comes to, or the text of the error that the
/// evaluator raises. The expression is evaluated in a context of its own,
/// without variables set from outside and without the crate's `rand`
/// feature, and a plain expression is evaluated by integer arithmetic,
/// comparisons, joining of texts and the exact operations on floats alone,
/// so that its text decides the result.
pub uninterp spec fn evaluated(expr: Seq<char>) -> Result<bool, Seq<char>>;

/// Evaluates an expression with `evalexpr::eval_boolean` and hands back
/// the boolean, or the evaluator's error as the text that its `Display`
/// gives. Of a plain expression the result is `evaluated`; of any other
/// nothing is claimed. An expression can still ask for more memory than
/// the machine has; memory is not modelled.
#[verifier::external_body]
pub(crate) fn eval_boolean(expr: &str) -> (out: Result<bool, String>)
    requires
        evaluable(expr@),
    ensures
        plain(expr@) ==> match out {
            Ok(value) => evaluated(expr@) == Ok::<bool, Seq<char>>(value),
            Err(text) => evaluated(expr@) == Err::<bool, Seq<char>>(text@),
        },
{
    match evalexpr::eval_boolean(expr) {
        Ok(value) => Ok(value),
        Err(e) => Err(e.to_string()),
    }
}

/// Draws an id of `size` characters with `nanoid::format`, from
/// `nanoid::rngs::default` and the alphabet `nanoid::alphabet::SAFE`. The
/// characters are random and all of one byte; `format` returns once it has
/// gathered `size` of them. On a size of zero it would gather for ever, and
/// on a very large one its arithmetic would overflow; those are left out.
/// The random bytes come from the operating system, and nanoid's generator
/// panics on a system that gives none.
#[verifier::external_body]
pub(crate) fn draw_id(size: usize) -> (id: String)
    requires
        0 < size <= usize::MAX / 8,
    ensures
        id@.len() == size,
{
    nanoid::format(nanoid::rngs::default, &nanoid::alphabet::SAFE, size)
}

} // verus!
