//! The mathematical model of an error report.

use vstd::prelude::*;

verus! {

/// What a `UserError` holds, as plain sequences: the message and the two
/// lists, each entry a sequence of characters, in insertion order.
pub ghost struct UserErrorView {
    pub message: Seq<char>,
    pub reasons: Seq<Seq<char>>,
    pub help: Seq<Seq<char>>,
}

impl UserErrorView {
    /// The value that holds `message` and nothing else.
    pub open spec fn new(message: Seq<char>) -> Self {
        UserErrorView { message, reasons: Seq::empty(), help: Seq::empty() }
    }

    /// This value with `reason` appended to the chain of reasons.
    pub open spec fn with_reason(self, reason: Seq<char>) -> Self {
        UserErrorView { reasons: self.reasons.push(reason), ..self }
    }

    /// This value with `tip` appended to the help list.
    pub open spec fn with_help(self, tip: Seq<char>) -> Self {
        UserErrorView { help: self.help.push(tip), ..self }
    }

    /// This value after appending each entry of `reasons`, first to last.
    pub open spec fn with_reasons(self, reasons: Seq<Seq<char>>) -> Self
        decreases reasons.len(),
    {
        if reasons.len() == 0 {
            self
        } else {
            self.with_reasons(reasons.drop_last()).with_reason(reasons.last())
        }
    }

    /// This value after appending each entry of `tips`, first to last.
    pub open spec fn with_helps(self, tips: Seq<Seq<char>>) -> Self
        decreases tips.len(),
    {
        if tips.len() == 0 {
            self
        } else {
            self.with_helps(tips.drop_last()).with_help(tips.last())
        }
    }
}

} // verus!
