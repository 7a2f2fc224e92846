use std::fmt;
use uerr::IntoUserError;

struct Celsius(i32);

impl fmt::Display for Celsius {
    fn fmt(&self, f: &mut fmt::Formatter<'_>) -> fmt::Result {
        f.write_str(&format!("{} degrees", self.0))
    }
}

#[test]
fn a_slice_becomes_an_error_with_its_text() {
    let e = "access denied".into_user_err();
    assert_eq!(e.message(), "access denied");
    assert!(e.reasons().is_empty());
    assert!(e.help().is_empty());
}

#[test]
fn an_owned_string_becomes_an_error_with_its_text() {
    let e = String::from("timed out").into_user_err();
    assert_eq!(e.message(), "timed out");
    assert!(e.reasons().is_empty());
    assert!(e.help().is_empty());
}

#[test]
fn a_number_becomes_an_error_with_its_display_text() {
    let e = (-42i64).into_user_err();
    assert_eq!(e.message(), "-42");
    assert!(e.reasons().is_empty());
    assert!(e.help().is_empty());
}

#[test]
fn a_custom_display_type_becomes_an_error_with_its_display_text() {
    let e = Celsius(21).into_user_err();
    assert_eq!(e.message(), "21 degrees");
    assert!(e.reasons().is_empty());
    assert!(e.help().is_empty());
}

#[test]
fn an_io_error_becomes_an_error_with_its_display_text() {
    let err = std::io::Error::new(std::io::ErrorKind::Other, "pipe closed");
    let text = err.to_string();
    let e = err.into_user_err();
    assert_eq!(e.message(), &text);
    assert_eq!(e.message(), "pipe closed");
    assert!(e.reasons().is_empty());
    assert!(e.help().is_empty());
}

#[test]
fn a_converted_error_can_be_enriched() {
    let e = "no such table".into_user_err().and_reason("schema is empty").and_help("run migrate");
    assert_eq!(e.message(), "no such table");
    assert_eq!(e.reasons(), &vec!["schema is empty".to_string()]);
    assert_eq!(e.help(), &vec!["run migrate".to_string()]);
}

struct Silent;

impl IntoUserError for Silent {
    fn into_user_err(self) -> uerr::UserError {
        uerr::UserError::from("nothing to show").and_help("implement Display")
    }
}

#[test]
fn a_type_without_display_can_have_its_own_conversion() {
    let e = Silent.into_user_err();
    assert_eq!(e.message(), "nothing to show");
    assert_eq!(e.help(), &vec!["implement Display".to_string()]);
}
