use xcodebuild::description::Description;
use xcodebuild::registry::Registry;
use xcodebuild::step::diagnostic::Diagnostic;
use xcodebuild::stream::OutputStream;

#[test]
fn lines_come_in_order_and_once() {
    let mut stream = OutputStream::new(vec!["a".to_string(), "".to_string(), "c".to_string()]);
    assert_eq!(stream.position(), 0);
    assert!(!stream.is_exhausted());
    assert_eq!(stream.next_line().as_deref(), Some("a"));
    assert_eq!(stream.position(), 1);
    assert_eq!(stream.next_line().as_deref(), Some(""));
    assert_eq!(stream.next_line().as_deref(), Some("c"));
    assert_eq!(stream.position(), 3);
    assert!(stream.is_exhausted());
    assert_eq!(stream.next_line(), None);
    assert_eq!(stream.next_line(), None);
    assert_eq!(stream.position(), 3);
}

#[test]
fn empty_source() {
    let mut stream = OutputStream::new(Vec::new());
    assert!(stream.is_exhausted());
    assert_eq!(stream.next_line(), None);
    assert_eq!(stream.position(), 0);
}

#[test]
fn description_of_a_header() {
    let registry = Registry::new().unwrap();
    let d = Description::from_line("Ld /x normal arm64 (in target 'T' from project 'P')", &registry).unwrap();
    assert_eq!(d.target, "T");
    assert_eq!(d.project, "P");
    assert_eq!(d.to_string(), "[P.T]");
    assert!(Description::from_line("Ld /x normal arm64", &registry).is_none());
    assert!(Description::from_line("Ld /x (in target 'T' from project '')", &registry).is_none());
    assert!(Description::from_line("Ld /x (in target '' from project 'P')", &registry).is_none());
}

#[test]
fn description_from_captures_needs_both_names() {
    let registry = Registry::new().unwrap();
    let set = registry
        .captures(
            xcodebuild::registry::table::PatternId::BuildTarget,
            "=== BUILD TARGET T OF PROJECT P WITH THE DEFAULT CONFIGURATION Debug ===",
        )
        .unwrap();
    let d = Description::from_captures(&set).unwrap();
    assert_eq!((d.project.as_str(), d.target.as_str()), ("P", "T"));
    let set = registry
        .captures(xcodebuild::registry::table::PatternId::Analyze, "Analyze /path/to/file.mm")
        .unwrap();
    assert!(Description::from_captures(&set).is_none());
}

#[test]
fn diagnostic_from_captures_needs_all_three() {
    let registry = Registry::new().unwrap();
    let set = registry
        .captures(xcodebuild::registry::table::PatternId::CompileWarning, "a.c:1:2: warning: W")
        .unwrap();
    let d = Diagnostic::from_captures(&set).unwrap();
    assert_eq!(d.location, "a.c:1:2");
    assert_eq!(d.filepath, "a.c");
    assert_eq!(d.message, "W");
    let set = registry
        .captures(xcodebuild::registry::table::PatternId::GenericWarning, "warning: W")
        .unwrap();
    assert!(Diagnostic::from_captures(&set).is_none());
}
