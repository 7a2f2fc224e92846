//! What holds of every error report, proved from the contracts and the
//! model that the rest of the crate states.

use crate::convert::{converts_to, converts_to_one_text};
use crate::error::UserError;
use crate::exit::{TerminationView, FALLBACK_EXIT_CODE, FALLBACK_NOTE};
use crate::model::UserErrorView;
use crate::render::{enumeration, HELP_FIRST, HELP_REST, REASON_FIRST, REASON_REST};
use vstd::prelude::*;

verus! {

/// A new error gives back the message it was made with, character for
/// character; so does one made with the empty message.
pub proof fn lemma_new_keeps_message(message: String, error: UserError, read: &String)
    requires
        call_ensures(UserError::new, (message,), error),
        call_ensures(UserError::message, (&error,), read),
    ensures
        read@ == message@,
{
}

/// A string slice converts to its own text and to no other.
pub proof fn lemma_str_converts_to_own_text(value: &str)
    ensures
        forall|text: Seq<char>| #[trigger] converts_to(value, text) ==> text == value@,
        converts_to_one_text(value),
{
}

/// A `String` converts to its own text and to no other.
pub proof fn lemma_string_converts_to_own_text(value: String)
    ensures
        forall|text: Seq<char>| #[trigger] converts_to(value, text) ==> text == value@,
        converts_to_one_text(value),
{
}

/// Appending a list of reasons one by one puts them behind the reasons
/// already held, in the order given, and touches nothing else.
pub proof fn lemma_with_reasons(error: UserErrorView, reasons: Seq<Seq<char>>)
    ensures
        error.with_reasons(reasons) == (UserErrorView {
            reasons: error.reasons + reasons,
            ..error
        }),
    decreases reasons.len(),
{
    if reasons.len() > 0 {
        lemma_with_reasons(error, reasons.drop_last());
        assert((error.reasons + reasons.drop_last()).push(reasons.last()) =~= error.reasons
            + reasons);
    }
}

/// Appending a list of help tips one by one puts them behind the tips
/// already held, in the order given, and touches nothing else.
pub proof fn lemma_with_helps(error: UserErrorView, tips: Seq<Seq<char>>)
    ensures
        error.with_helps(tips) == (UserErrorView { help: error.help + tips, ..error }),
    decreases tips.len(),
{
    if tips.len() > 0 {
        lemma_with_helps(error, tips.drop_last());
        assert((error.help + tips.drop_last()).push(tips.last()) =~= error.help + tips);
    }
}

/// Insertion order is kept: a new error to which the reasons `reasons` and
/// the help tips `tips` are appended one by one holds exactly those lists,
/// entry for entry, with nothing reordered, dropped or merged.
pub proof fn lemma_appends_keep_order(
    message: Seq<char>,
    reasons: Seq<Seq<char>>,
    tips: Seq<Seq<char>>,
)
    ensures
        UserErrorView::new(message).with_reasons(reasons).with_helps(tips) == (UserErrorView {
            message,
            reasons,
            help: tips,
        }),
{
    let fresh = UserErrorView::new(message);
    lemma_with_reasons(fresh, reasons);
    lemma_with_helps(fresh.with_reasons(reasons), tips);
}

/// The two lists do not disturb each other: a reason and a help tip may be
/// appended in either order.
pub proof fn lemma_reason_and_help_commute(error: UserErrorView, reason: Seq<char>, tip: Seq<char>)
    ensures
        error.with_reason(reason).with_help(tip) == error.with_help(tip).with_reason(reason),
{
}

/// Appending a reason in place and appending it fluently end in the same
/// value, for every argument that converts to one text only.
pub proof fn lemma_reason_in_place_matches_fluent<S: Into<String>>(
    target: &mut UserError,
    reason: S,
    fluent: UserError,
)
    requires
        converts_to_one_text(reason),
        call_ensures(UserError::add_reason, (target, reason), ()),
        call_ensures(UserError::and_reason, (*target, reason), fluent),
    ensures
        final(target)@ == fluent@,
{
}

/// Appending a help tip in place and appending it fluently end in the same
/// value, for every argument that converts to one text only.
pub proof fn lemma_help_in_place_matches_fluent<S: Into<String>>(
    target: &mut UserError,
    help: S,
    fluent: UserError,
)
    requires
        converts_to_one_text(help),
        call_ensures(UserError::add_help, (target, help), ()),
        call_ensures(UserError::and_help, (*target, help), fluent),
    ensures
        final(target)@ == fluent@,
{
}

/// A list of `n` entries takes `n` lines, an empty list none, and each line
/// ends in its entry: the first behind `first`, every later one behind
/// `rest`.
pub proof fn lemma_enumeration_lines(items: Seq<Seq<char>>, first: Seq<char>, rest: Seq<char>)
    ensures
        enumeration(items, first, rest).len() == items.len(),
        items.len() > 0 ==> enumeration(items, first, rest)[0] == first + items[0],
        forall|i: int|
            1 <= i < items.len() ==> #[trigger] enumeration(items, first, rest)[i] == rest
                + items[i],
{
}

/// The continuation marker of each list is as wide as the list's first
/// marker, so that later entries stand under the first.
pub proof fn lemma_markers_align()
    ensures
        REASON_REST@.len() == REASON_FIRST@.len(),
        HELP_REST@.len() == HELP_FIRST@.len(),
{
    reveal_strlit(" - caused by: ");
    reveal_strlit("     |        ");
    reveal_strlit(" + help: ");
    reveal_strlit("     |   ");
}

/// An error without reasons and without help is reported on one line: the
/// prefix directly followed by the message.
pub proof fn lemma_bare_report_is_one_line(error: UserErrorView, prefix: Seq<char>)
    requires
        error.reasons.len() == 0,
        error.help.len() == 0,
    ensures
        error.rendering(prefix) == seq![prefix + error.message],
{
}

/// The layout of a report, line by line: the head line, then one line for
/// each reason, then one line for each help tip, every list in insertion
/// order, the first entry of a list behind the list's marker and the later
/// ones behind its continuation marker.
pub proof fn lemma_report_lines(error: UserErrorView, prefix: Seq<char>)
    ensures
        error.rendering(prefix).len() == 1 + error.reasons.len() + error.help.len(),
        error.rendering(prefix)[0] == prefix + error.message,
        forall|k: int|
            1 <= k <= error.reasons.len() ==> #[trigger] error.rendering(prefix)[k] == (if k == 1 {
                REASON_FIRST@
            } else {
                REASON_REST@
            }) + error.reasons[k - 1],
        forall|k: int|
            error.reasons.len() < k <= error.reasons.len() + error.help.len()
                ==> #[trigger] error.rendering(prefix)[k] == (if k == error.reasons.len() + 1 {
                HELP_FIRST@
            } else {
                HELP_REST@
            }) + error.help[k - 1 - error.reasons.len()],
{
}

/// A failure that carries an OS error code ends the program with that code,
/// after the report and nothing else has been written.
pub proof fn lemma_termination_with_code(error: UserErrorView, prefix: Seq<char>, code: i32)
    ensures
        error.termination(prefix, Some(code)) == (TerminationView {
            lines: error.rendering(prefix),
            code,
        }),
{
}

/// A failure that carries no OS error code ends the program with the
/// fallback code, after the fallback note and then the report have been
/// written.
pub proof fn lemma_termination_without_code(error: UserErrorView, prefix: Seq<char>)
    ensures
        error.termination(prefix, None) == (TerminationView {
            lines: seq![FALLBACK_NOTE@] + error.rendering(prefix),
            code: FALLBACK_EXIT_CODE,
        }),
        FALLBACK_EXIT_CODE == -1,
{
}

} // verus!
