//! Conversions into text and into error values.

use crate::error::UserError;
use crate::model::UserErrorView;
use std::fmt::Display;
use vstd::prelude::*;
use vstd::string::to_string_from_display_ensures;

verus! {

/// `String::from` on a string slice (std's `impl From<&str> for String`):
/// the new string holds the characters of the slice, in order.
pub assume_specification<'a>[ <String as From<&'a str>>::from ](s: &str) -> (r: String)
    ensures
        r@ == s@,
;

/// `From::from` of a type into itself (std's `impl<T> From<T> for T`):
/// it returns its argument unchanged.
pub assume_specification<T>[ <T as From<T>>::from ](t: T) -> (r: T)
    ensures
        r == t,
;

/// `text` is what `value.into()` yields as a `String`.
///
/// For a `&str` and for a `String` this is the argument's own text; for any
/// other type it is whatever that type's conversion is specified to return.
pub open spec fn converts_to<S: Into<String>>(value: S, text: Seq<char>) -> bool {
    exists|s: String| s@ == text && #[trigger] call_ensures(<S as Into<String>>::into, (value,), s)
}

/// `value` converts to one text only: whenever it is converted, the same
/// text comes out.
pub open spec fn converts_to_one_text<S: Into<String>>(value: S) -> bool {
    forall|a: Seq<char>, b: Seq<char>|
        #[trigger] converts_to(value, a) && #[trigger] converts_to(value, b) ==> a == b
}

/// `text` is a display text of `value`: a text that `to_string` returns
/// for it.
pub open spec fn displays_as<D: Display>(value: &D, text: Seq<char>) -> bool {
    exists|s: String| s@ == text && #[trigger] to_string_from_display_ensures::<D>(value, s)
}

/// A value that can be turned into a [`UserError`].
pub trait IntoUserError {
    /// Convert this value into a [`UserError`].
    fn into_user_err(self) -> UserError;
}

/// Every displayable value can be turned into an error: the message is the
/// value's display text, and the two lists are empty.
impl<D> IntoUserError for D where D: Display {
    fn into_user_err(self) -> (e: UserError)
        ensures
            displays_as(&self, e@.message),
            e@ == UserErrorView::new(e@.message),
    {
        UserError::new(self.to_string())
    }
}

} // verus!
