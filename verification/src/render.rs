//! The console layout of an error report.
//!
//! A report is a sequence of lines. The first is the caller's prefix directly
//! followed by the message; then come the reasons and then the help tips,
//! one line each. The first entry of a list carries the list's marker, the
//! later ones a fixed continuation marker of the same width.

use crate::error::UserError;
use crate::model::UserErrorView;
use vstd::prelude::*;
use vstd::string::StringExecFns;

verus! {

/// Marker before the first reason.
pub const REASON_FIRST: &'static str = " - caused by: ";

/// Marker before every later reason.
pub const REASON_REST: &'static str = "     |        ";

/// Marker before the first help tip.
pub const HELP_FIRST: &'static str = " + help: ";

/// Marker before every later help tip.
pub const HELP_REST: &'static str = "     |   ";

/// The lines that list `items`: one line per item, in order, the first
/// behind `first` and each later one behind `rest`. No items, no lines.
pub open spec fn enumeration(items: Seq<Seq<char>>, first: Seq<char>, rest: Seq<char>) -> Seq<
    Seq<char>,
> {
    Seq::new(
        items.len(),
        |i: int|
            if i == 0 {
                first + items[i]
            } else {
                rest + items[i]
            },
    )
}

impl UserErrorView {
    /// The lines of the report behind `prefix`: the head line, the reasons,
    /// the help tips. Nothing is put between the prefix and the message.
    pub open spec fn rendering(self, prefix: Seq<char>) -> Seq<Seq<char>> {
        seq![prefix + self.message] + enumeration(self.reasons, REASON_FIRST@, REASON_REST@)
            + enumeration(self.help, HELP_FIRST@, HELP_REST@)
    }
}

/// `marker` directly followed by `item`, as one line.
fn marked(marker: &str, item: &str) -> (line: String)
    ensures
        line@ == marker@ + item@,
{
    let mut line = String::from_str(marker);
    line.append(item);
    line
}

/// Lay out `items` as lines: the first item behind `first`, every later one
/// behind `rest`.
pub fn enumerator(items: &Vec<String>, first: &str, rest: &str) -> (lines: Vec<String>)
    ensures
        lines.deep_view() == enumeration(items.deep_view(), first@, rest@),
{
    let ghost expected = enumeration(items.deep_view(), first@, rest@);
    let mut lines: Vec<String> = Vec::new();
    let mut i: usize = 0;
    while i < items.len()
        invariant
            i <= items.len(),
            lines.len() == i,
            expected == enumeration(items.deep_view(), first@, rest@),
            forall|j: int| 0 <= j < i ==> (#[trigger] lines[j])@ == expected[j],
        decreases items.len() - i,
    {
        let marker = if i == 0 {
            first
        } else {
            rest
        };
        lines.push(marked(marker, items[i].as_str()));
        i += 1;
    }
    lines
}

impl UserError {
    /// The lines of this error's report behind `prefix`, in the order in
    /// which they are to be written.
    pub fn render(&self, prefix: &str) -> (lines: Vec<String>)
        ensures
            lines.deep_view() == self@.rendering(prefix@),
    {
        let mut lines: Vec<String> = Vec::new();
        lines.push(marked(prefix, self.message().as_str()));
        let mut reasons = enumerator(self.reasons(), REASON_FIRST, REASON_REST);
        let mut help = enumerator(self.help(), HELP_FIRST, HELP_REST);
        lines.append(&mut reasons);
        lines.append(&mut help);
        lines
    }
}

} // verus!
