//! The error value: construction, appending and access.

use crate::convert::converts_to;
use crate::model::UserErrorView;
use vstd::prelude::*;

verus! {

/// A human-readable error: a message, the reasons behind it and tips that
/// may help, each list in the order in which its entries were added.
pub struct UserError {
    message: String,
    reasons: Vec<String>,
    help: Vec<String>,
}

impl View for UserError {
    type V = UserErrorView;

    closed spec fn view(&self) -> UserErrorView {
        UserErrorView {
            message: self.message@,
            reasons: self.reasons.deep_view(),
            help: self.help.deep_view(),
        }
    }
}

impl Default for UserError {
    /// The error with an empty message and empty lists.
    fn default() -> (e: Self)
        ensures
            e@ == UserErrorView::new(Seq::empty()),
    {
        Self::new(String::new())
    }
}

impl UserError {
    /// Add a help tip to this error, after those it already holds.
    #[inline]
    pub fn add_help(&mut self, help: impl Into<String>)
        ensures
            converts_to(help, final(self)@.help.last()),
            final(self)@ == old(self)@.with_help(final(self)@.help.last()),
    {
        self.help.push(help.into());
        assert(self@.help =~= old(self)@.help.push(self@.help.last()));
    }

    /// Add a reason to this error, after those it already holds.
    #[inline]
    pub fn add_reason(&mut self, reason: impl Into<String>)
        ensures
            converts_to(reason, final(self)@.reasons.last()),
            final(self)@ == old(self)@.with_reason(final(self)@.reasons.last()),
    {
        self.reasons.push(reason.into());
        assert(self@.reasons =~= old(self)@.reasons.push(self@.reasons.last()));
    }

    /// Add a help tip to this error and hand the error back.
    #[inline]
    pub fn and_help(self, help: impl Into<String>) -> (e: Self)
        ensures
            converts_to(help, e@.help.last()),
            e@ == self@.with_help(e@.help.last()),
    {
        let mut e = self;
        e.add_help(help);
        e
    }

    /// Add a reason to this error and hand the error back.
    #[inline]
    pub fn and_reason(self, reason: impl Into<String>) -> (e: Self)
        ensures
            converts_to(reason, e@.reasons.last()),
            e@ == self@.with_reason(e@.reasons.last()),
    {
        let mut e = self;
        e.add_reason(reason);
        e
    }

    /// Create an error that holds `message` and no reasons or help.
    #[inline]
    pub fn new(message: String) -> (e: Self)
        ensures
            e@ == UserErrorView::new(message@),
    {
        let e = Self { message, reasons: Vec::new(), help: Vec::new() };
        assert(e@.reasons =~= Seq::empty());
        assert(e@.help =~= Seq::empty());
        e
    }

    /// Create an error that holds a copy of `message` and no reasons or help.
    #[inline]
    pub fn from(message: &str) -> (e: Self)
        ensures
            e@ == UserErrorView::new(message@),
    {
        Self::new(message.to_string())
    }

    /// The message.
    #[inline]
    pub fn message(&self) -> (m: &String)
        ensures
            m@ == self@.message,
    {
        &self.message
    }

    /// The reasons, oldest first.
    #[inline]
    pub fn reasons(&self) -> (r: &Vec<String>)
        ensures
            r.deep_view() == self@.reasons,
    {
        &self.reasons
    }

    /// The reasons, for editing in place. The message and the help list stay
    /// as they are; the reasons become whatever the caller leaves behind the
    /// reference.
    #[inline]
    pub fn reasons_mut(&mut self) -> (r: &mut Vec<String>)
        ensures
            r.deep_view() == old(self)@.reasons,
            final(self)@ == (UserErrorView { reasons: final(r).deep_view(), ..old(self)@ }),
    {
        &mut self.reasons
    }

    /// The help tips, oldest first.
    #[inline]
    pub fn help(&self) -> (h: &Vec<String>)
        ensures
            h.deep_view() == self@.help,
    {
        &self.help
    }

    /// The help tips, for editing in place. The message and the reasons stay
    /// as they are; the help list becomes whatever the caller leaves behind
    /// the reference.
    #[inline]
    pub fn help_mut(&mut self) -> (h: &mut Vec<String>)
        ensures
            h.deep_view() == old(self)@.help,
            final(self)@ == (UserErrorView { help: final(h).deep_view(), ..old(self)@ }),
    {
        &mut self.help
    }
}

} // verus!
