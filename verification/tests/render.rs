use uerr::{enumerator, UserError, HELP_FIRST, HELP_REST, REASON_FIRST, REASON_REST};

fn strings(items: &[&str]) -> Vec<String> {
    items.iter().map(|s| s.to_string()).collect()
}

#[test]
fn sample_error() {
    let error = UserError::from("could not open file")
        .and_reason("The system cannot find the file specified.")
        .and_reason("Filler reason.")
        .and_help("Does this file exist?")
        .and_help("Filler help.");
    let lines = error.render("program.exe: ");
    assert_eq!(
        lines,
        strings(&[
            "program.exe: could not open file",
            " - caused by: The system cannot find the file specified.",
            "     |        Filler reason.",
            " + help: Does this file exist?",
            "     |   Filler help.",
        ])
    );
}

#[test]
fn markers_are_the_fixed_strings() {
    assert_eq!(REASON_FIRST, " - caused by: ");
    assert_eq!(REASON_REST, "     |        ");
    assert_eq!(HELP_FIRST, " + help: ");
    assert_eq!(HELP_REST, "     |   ");
}

#[test]
fn continuation_markers_align_with_first_markers() {
    assert_eq!(REASON_REST.len(), REASON_FIRST.len());
    assert_eq!(HELP_REST.len(), HELP_FIRST.len());
    assert_eq!(REASON_FIRST.len(), 14);
    assert_eq!(HELP_FIRST.len(), 9);
}

#[test]
fn bare_error_renders_one_line() {
    let lines = UserError::from("disk full").render("app: ");
    assert_eq!(lines, strings(&["app: disk full"]));
}

#[test]
fn prefix_and_message_are_not_separated() {
    let lines = UserError::from("message").render("prefix");
    assert_eq!(lines, strings(&["prefixmessage"]));
}

#[test]
fn empty_prefix_and_empty_message_render_an_empty_line() {
    let lines = UserError::from("").render("");
    assert_eq!(lines, strings(&[""]));
}

#[test]
fn one_reason_renders_two_lines() {
    let lines = UserError::from("failed").and_reason("A").render("app: ");
    assert_eq!(lines, strings(&["app: failed", " - caused by: A"]));
}

#[test]
fn three_reasons_render_one_first_line_and_two_continuations() {
    let lines = UserError::from("failed")
        .and_reason("A")
        .and_reason("B")
        .and_reason("C")
        .render("app: ");
    assert_eq!(
        lines,
        strings(&["app: failed", " - caused by: A", "     |        B", "     |        C"])
    );
}

#[test]
fn help_alone_renders_without_a_reasons_section() {
    let lines = UserError::from("failed").and_help("try again").and_help("or not").render("");
    assert_eq!(lines, strings(&["failed", " + help: try again", "     |   or not"]));
}

#[test]
fn reasons_come_before_help_whatever_the_insertion_order() {
    let lines = UserError::from("m").and_help("h").and_reason("r").render(">");
    assert_eq!(lines, strings(&[">m", " - caused by: r", " + help: h"]));
}

#[test]
fn render_leaves_the_error_as_it_is() {
    let error = UserError::from("m").and_reason("r").and_help("h");
    let first = error.render("p: ");
    let second = error.render("p: ");
    assert_eq!(first, second);
    assert_eq!(error.message(), "m");
    assert_eq!(error.reasons(), &strings(&["r"]));
    assert_eq!(error.help(), &strings(&["h"]));
}

#[test]
fn render_counts_one_line_per_entry() {
    let mut error = UserError::from("m");
    for i in 0..7 {
        error.add_reason(format!("reason {}", i));
    }
    for i in 0..4 {
        error.add_help(format!("help {}", i));
    }
    let lines = error.render("p: ");
    assert_eq!(lines.len(), 1 + 7 + 4);
    assert_eq!(lines[1], " - caused by: reason 0");
    assert_eq!(lines[7], "     |        reason 6");
    assert_eq!(lines[8], " + help: help 0");
    assert_eq!(lines[11], "     |   help 3");
}

#[test]
fn enumerator_of_nothing_is_nothing() {
    let lines = enumerator(&Vec::new(), "first ", "rest ");
    assert!(lines.is_empty());
}

#[test]
fn enumerator_marks_the_first_item_apart() {
    let lines = enumerator(&strings(&["a", "b", "c"]), "1> ", ".. ");
    assert_eq!(lines, strings(&["1> a", ".. b", ".. c"]));
}

#[test]
fn enumerator_of_one_item_uses_the_first_marker_only() {
    let lines = enumerator(&strings(&["only"]), "* ", "  ");
    assert_eq!(lines, strings(&["* only"]));
}

#[test]
fn enumerator_keeps_empty_items() {
    let lines = enumerator(&strings(&["", ""]), "f", "r");
    assert_eq!(lines, strings(&["f", "r"]));
}
