//! Ending a program on a failure: what to write and which exit code to use.
//!
//! Nothing here writes or exits. A [`Termination`] says what the caller is
//! to write to the diagnostic stream, line by line, and the code with which
//! the process is then to end.

use crate::convert::{displays_as, IntoUserError};
use crate::error::UserError;
use crate::model::UserErrorView;
use vstd::prelude::*;

verus! {

/// The exit code used when a failure carries no OS error code.
pub const FALLBACK_EXIT_CODE: i32 = -1;

/// The note written when a failure carries no OS error code.
pub const FALLBACK_NOTE: &'static str =
    "note: the error code could not be found for this variant; reverting to -1...";

/// std's `std::io::Error`. Its content is not visible to the verifier; the
/// value is passed on to the std functions that read it.
#[verifier::external_type_specification]
#[verifier::external_body]
pub struct ExIoError(std::io::Error);

/// The OS error code that an I/O error carries, or `None` where it carries
/// none: what `std::io::Error::raw_os_error` returns for it.
pub uninterp spec fn io_raw_code(err: std::io::Error) -> Option<i32>;

/// `std::io::Error::raw_os_error`: it reads the error's OS code and returns
/// it, `None` where the error was not made from one. The result depends on
/// the error alone, which is all that this contract claims.
pub assume_specification[ std::io::Error::raw_os_error ](err: &std::io::Error) -> (raw: Option<
    i32,
>)
    ensures
        raw == io_raw_code(*err),
;

/// What a program writes before it ends on a failure, and the code it ends
/// with.
#[derive(Debug)]
pub struct Termination {
    /// The lines for the diagnostic stream, in the order to write them.
    pub lines: Vec<String>,
    /// The exit code of the process.
    pub code: i32,
}

/// A [`Termination`] as plain values.
pub ghost struct TerminationView {
    pub lines: Seq<Seq<char>>,
    pub code: i32,
}

impl View for Termination {
    type V = TerminationView;

    open spec fn view(&self) -> TerminationView {
        TerminationView { lines: self.lines.deep_view(), code: self.code }
    }
}

/// The exit code for a failure whose OS error code is `raw`: the code
/// itself where there is one, the fallback where there is none.
pub open spec fn exit_code_for(raw: Option<i32>) -> i32 {
    match raw {
        Some(code) => code,
        None => FALLBACK_EXIT_CODE,
    }
}

impl UserErrorView {
    /// How a program ends on this error, shown behind `prefix`, when the
    /// failure's OS error code is `raw`. Where there is no code, the
    /// fallback note comes first; the report follows in either case.
    pub open spec fn termination(self, prefix: Seq<char>, raw: Option<i32>) -> TerminationView {
        TerminationView {
            lines: if raw is None {
                seq![FALLBACK_NOTE@] + self.rendering(prefix)
            } else {
                self.rendering(prefix)
            },
            code: exit_code_for(raw),
        }
    }
}

/// The exit code for a failure whose OS error code is `raw`.
pub fn exit_code(raw: Option<i32>) -> (code: i32)
    ensures
        code == exit_code_for(raw),
{
    match raw {
        Some(code) => code,
        None => FALLBACK_EXIT_CODE,
    }
}

impl UserError {
    /// How a program ends on this error: the lines to write, with the
    /// report behind `prefix`, and the exit code derived from `raw`.
    pub fn termination(&self, prefix: &str, raw: Option<i32>) -> (end: Termination)
        ensures
            end@ == self@.termination(prefix@, raw),
    {
        let mut lines: Vec<String> = Vec::new();
        if raw.is_none() {
            lines.push(FALLBACK_NOTE.to_string());
        }
        let ghost note = lines.deep_view();
        let mut report = self.render(prefix);
        lines.append(&mut report);
        assert(lines.deep_view() =~= note + self@.rendering(prefix@));
        assert(raw is None ==> note =~= seq![FALLBACK_NOTE@]);
        Termination { lines, code: exit_code(raw) }
    }
}

/// Take the value out of an I/O result, or say how the program is to end.
///
/// A success hands its value back untouched. A failure becomes the
/// [`Termination`] of the error made from it: the message is the failure's
/// display text, the report stands behind `msg`, and the exit code is the
/// failure's OS error code or the fallback.
pub fn try_unwrap_io<V>(msg: &str, res: Result<V, std::io::Error>) -> (out: Result<V, Termination>)
    ensures
        match res {
            Ok(value) => out == Ok::<V, Termination>(value),
            Err(err) => out is Err && exists|text: Seq<char>|
                #[trigger] displays_as(&err, text) && out->Err_0@ == UserErrorView::new(
                    text,
                ).termination(msg@, io_raw_code(err)),
        },
{
    match res {
        Ok(value) => Ok(value),
        Err(err) => {
            let raw = err.raw_os_error();
            let error = err.into_user_err();
            Err(error.termination(msg, raw))
        },
    }
}

} // verus!
