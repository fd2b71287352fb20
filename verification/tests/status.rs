use hyperpm::status::{
    created_line, creating_line, failure_line, fetching_line, install_banner, installing_line,
    join_spaced, success_line, version_note, Segment, StatusLine, Style,
};

fn seg(text: &str, style: Style) -> Segment {
    Segment { text: String::from(text), style }
}

#[test]
fn segment_constructors() {
    assert_eq!(Segment::new(String::from("a"), Style::Cyan), seg("a", Style::Cyan));
    assert_eq!(Segment::of_str("b", Style::Dimmed), seg("b", Style::Dimmed));
}

#[test]
fn empty_line_has_no_text() {
    let line = StatusLine::empty();
    assert_eq!(line.len(), 0);
    assert_eq!(line.plain_text(), "");
}

#[test]
fn version_note_wraps_the_version() {
    assert_eq!(version_note("2.1.0"), "(v2.1.0)");
    assert_eq!(version_note(""), "(v)");
}

#[test]
fn fetching_line_names_the_target() {
    let line = fetching_line("foo");
    assert_eq!(line.segments, vec![seg("Fetching package info for foo", Style::Plain)]);
    assert_eq!(line.plain_text(), "Fetching package info for foo");
}

#[test]
fn installing_line_names_target_and_version() {
    let line = installing_line("foo", "2.1.0");
    assert_eq!(line.segments, vec![seg("Installing foo (v2.1.0)", Style::Plain)]);
    assert_eq!(line.plain_text(), "Installing foo (v2.1.0)");
}

#[test]
fn success_line_has_three_styled_segments() {
    let line = success_line("foo", "2.1.0");
    assert_eq!(
        line.segments,
        vec![
            seg("foo", Style::Cyan),
            seg("installed successfully!", Style::GreenBold),
            seg("(v2.1.0)", Style::Dimmed),
        ]
    );
    assert_eq!(line.len(), 3);
    assert_eq!(line.plain_text(), "foo installed successfully! (v2.1.0)");
}

#[test]
fn failure_line_names_the_target() {
    let line = failure_line("bar");
    assert_eq!(line.segments, vec![seg("Failed to install", Style::RedBold), seg("bar", Style::Plain)]);
    assert_eq!(line.plain_text(), "Failed to install bar");
}

#[test]
fn banners() {
    assert_eq!(install_banner().segments, vec![seg("Installing packages...", Style::GreenBold)]);
    assert_eq!(install_banner().plain_text(), "Installing packages...");
    assert_eq!(creating_line().segments, vec![seg("Creating new project...", Style::GreenBold)]);
    assert_eq!(creating_line().plain_text(), "Creating new project...");
}

#[test]
fn created_line_names_the_project() {
    let line = created_line("demo");
    assert_eq!(
        line.segments,
        vec![
            seg("Project", Style::GreenBold),
            seg("demo", Style::GreenBold),
            seg("created successfully!", Style::GreenBold),
        ]
    );
    assert_eq!(line.plain_text(), "Project demo created successfully!");
}

#[test]
fn join_spaced_puts_one_space_between_parts() {
    assert_eq!(join_spaced(&Vec::new()), "");
    assert_eq!(join_spaced(&vec![String::from("alone")]), "alone");
    assert_eq!(join_spaced(&vec![String::from("a"), String::from("b")]), "a b");
    assert_eq!(
        join_spaced(&vec![String::from("a"), String::from("b c"), String::from("d")]),
        "a b c d"
    );
}

#[test]
fn join_spaced_keeps_empty_parts() {
    assert_eq!(join_spaced(&vec![String::new()]), "");
    assert_eq!(join_spaced(&vec![String::from("a"), String::new(), String::from("b")]), "a  b");
    assert_eq!(join_spaced(&vec![String::new(), String::new()]), " ");
}

#[test]
fn lines_with_an_empty_target() {
    assert_eq!(fetching_line("").plain_text(), "Fetching package info for ");
    assert_eq!(success_line("", "1").plain_text(), " installed successfully! (v1)");
    assert_eq!(failure_line("").plain_text(), "Failed to install ");
}
