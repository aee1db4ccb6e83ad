use lazy_regex::Regex;
use xcodebuild::registry::examples::Example;
use xcodebuild::registry::matcher::Matcher;
use xcodebuild::registry::pattern::Pattern;
use xcodebuild::registry::table::{PatternId, PATTERN_COUNT};
use xcodebuild::registry::Registry;

fn all_patterns() -> Vec<PatternId> {
    (0..PATTERN_COUNT).map(PatternId::from_position).collect()
}

#[test]
fn every_pattern_compiles() {
    assert!(Registry::new().is_ok());
    for id in all_patterns() {
        assert!(Pattern::new(id).is_ok(), "{:?}", id);
    }
}

#[test]
fn positions_number_the_table() {
    for (n, id) in all_patterns().into_iter().enumerate() {
        assert_eq!(id.position(), n);
    }
    assert_eq!(PatternId::TargetProject.position(), 0);
    assert_eq!(PATTERN_COUNT, 69);
}

#[test]
fn registry_hands_out_the_pattern_asked_for() {
    let registry = Registry::new().unwrap();
    for id in all_patterns() {
        let pattern = registry.pattern(id);
        assert_eq!(pattern.pattern_id(), id);
        assert_eq!(pattern.identifier(), format!("{:?}", id));
        assert_eq!(pattern.source(), id.definition().source);
        assert_eq!(pattern.description(), id.definition().description);
    }
}

#[test]
fn identifiers_are_distinct() {
    let mut seen: Vec<&str> = Vec::new();
    for id in all_patterns() {
        let identifier = id.definition().identifier;
        assert!(!seen.contains(&identifier), "{identifier}");
        seen.push(identifier);
    }
}

#[test]
fn declared_names_are_the_named_groups() {
    for id in all_patterns() {
        let pattern = Pattern::new(id).unwrap();
        let engine = Regex::new(pattern.source()).unwrap();
        let mut groups: Vec<String> = engine.capture_names().flatten().map(|n| n.to_string()).collect();
        let mut declared = pattern.capture_names();
        groups.sort();
        declared.sort();
        assert_eq!(declared, groups, "{:?}", id);
    }
}

#[test]
fn matcher_is_the_engine() {
    let registry = Registry::new().unwrap();
    let line = "a.c:10:3: error: X";
    let engine = Regex::new(PatternId::CompileError.definition().source).unwrap();
    let expected = engine.captures(line).unwrap();
    let set = registry.captures(PatternId::CompileError, line).unwrap();
    for name in ["location", "filepath", "message"] {
        assert_eq!(set.get(name).as_deref(), expected.name(name).map(|m| m.as_str()));
    }
    assert_eq!(set.get("message").as_deref(), Some("X"));
    assert_ne!(set.get("message").as_deref(), Some(line));
    assert_eq!(set.len(), 3);
}

#[test]
fn matching_twice_gives_the_same_captures() {
    let registry = Registry::new().unwrap();
    let line = "Ld /path/to/file.o normal x86_64 (in target 'Example' from project 'Example')";
    let first = registry.captures(PatternId::Linking, line).unwrap();
    let second = registry.captures(PatternId::Linking, line).unwrap();
    for name in registry.pattern(PatternId::Linking).capture_names() {
        assert_eq!(first.get(&name), second.get(&name));
    }
    assert_eq!(first.len(), second.len());
}

#[test]
fn no_match_is_not_an_error() {
    let registry = Registry::new().unwrap();
    for id in all_patterns() {
        if id == PatternId::ProcessPCHCommand || id == PatternId::CodeSignWarning {
            continue;
        }
        assert!(registry.captures(id, "").is_none(), "{:?}", id);
        assert!(!registry.is_match(id, ""), "{:?}", id);
    }
    assert!(registry.captures(PatternId::Linking, "CompileC a b").is_none());
    assert!(registry.capture(PatternId::Linking, "CompileC a b", "filename").is_none());
}

#[test]
fn absent_groups_have_no_entry() {
    let registry = Registry::new().unwrap();
    let set = registry.captures(PatternId::Analyze, "Analyze /path/to/file.mm").unwrap();
    assert_eq!(set.get("filename"), Some("file.mm".to_string()));
    assert_eq!(set.get("target"), None);
    assert_eq!(set.get("project"), None);
    assert_eq!(set.get("no such group"), None);
    assert_eq!(set.len(), 2);
}

#[test]
fn patterns_without_groups_only_match() {
    let registry = Registry::new().unwrap();
    assert!(registry.is_match(PatternId::CheckDependencies, "Check dependencies"));
    assert!(registry.is_match(PatternId::PhaseSuccess, "** BUILD SUCCEEDED **"));
    assert!(registry.is_match(PatternId::RestartingTests, "Restarting after unexpected exit or crash"));
    assert!(registry.is_match(PatternId::CoverageDataGeneration, "generating coverage data..."));
    assert!(registry.is_match(PatternId::TestSuiteAllTestsPassed, "Test Suite 'All tests' passed at 2013"));
    assert!(registry.is_match(PatternId::TestSuiteAllTestsFailed, "Test Suite 'All tests' failed at 2013"));
    assert!(registry.is_match(
        PatternId::ProcessPCHCommand,
        "    /usr/bin/clang -x c-header -c /path/to/file.pch -o /path/to/file.pch.gch"
    ));
    let set = registry.captures(PatternId::CheckDependencies, "Check dependencies").unwrap();
    assert_eq!(set.len(), 0);
}

#[test]
fn target_and_project_of_any_header() {
    let registry = Registry::new().unwrap();
    let set = registry
        .captures(PatternId::TargetProject, "Validate /x/App.app (in target 'My App' from project 'Proj')")
        .unwrap();
    assert_eq!(set.get("target"), Some("My App".to_string()));
    assert_eq!(set.get("project"), Some("Proj".to_string()));
}

#[test]
fn message_groups_are_reachable() {
    let registry = Registry::new().unwrap();
    let cases = [
        (PatternId::LdWarning, "ld: warning: directory not found", "message", "directory not found"),
        (PatternId::LdWarning, "ld: warning: directory not found", "prefix", "ld: "),
        (PatternId::GenericWarning, "warning: something", "message", "something"),
        (
            PatternId::CodeSignWarning,
            "App will not be code signed because it is a test",
            "message",
            "App will not be code signed because it is a test",
        ),
        (
            PatternId::CheckDependenciesError,
            "Code Sign error: No code signing identities found",
            "message",
            "Code Sign error: No code signing identities found",
        ),
        (
            PatternId::ProvisioningProfileRequiredError,
            "App requires a provisioning profile.",
            "message",
            "App requires a provisioning profile.",
        ),
        (
            PatternId::NoCertificateError,
            "No certificate matching 'iPhone Distribution' for team",
            "message",
            "No certificate matching 'iPhone Distribution' for team",
        ),
        (PatternId::Cursor, "    ~~~^~~", "content", "    ~~~^~~"),
        (PatternId::FatalError, "fatal error: 'x.h' file not found", "message", "fatal error: 'x.h' file not found"),
        (
            PatternId::FileMissingError,
            "<unknown>:0: error: no such file or directory: '/path/to/file.swift'",
            "filepath",
            "/path/to/file.swift",
        ),
        (
            PatternId::FileMissingError,
            "<unknown>:0: error: no such file or directory: '/path/to/file.swift'",
            "message",
            "error: no such file or directory:",
        ),
        (PatternId::LdError, "ld: library not found for -lPods", "message", "ld: library not found for -lPods"),
        (
            PatternId::LinkerDuplicateSymbolsLocationError,
            "    /path/to/file.o",
            "message",
            "/path/to/file.o",
        ),
        (
            PatternId::LinkerDuplicateSymbolsError,
            "duplicate symbol _OBJC_IVAR_$ClassName._ivarName in:",
            "message",
            "duplicate symbol _OBJC_IVAR_$ClassName._ivarName in",
        ),
        (
            PatternId::LinkerUndefinedSymbolsLocationError,
            "      objc-class-ref in MyClass.o",
            "message",
            "      objc-class-ref in MyClass.o",
        ),
        (PatternId::PodsError, "error: The sandbox is not in sync", "message", "error: The sandbox is not in sync"),
        (
            PatternId::SymbolReferencedFrom,
            "  \"_OBJC_CLASS_$_Foo\", referenced from:",
            "message",
            "_OBJC_CLASS_$_Foo",
        ),
        (
            PatternId::ModuleIncludesError,
            "<module-includes>:1:1: error: umbrella header not found",
            "message",
            "error: umbrella header not found",
        ),
        (
            PatternId::UndefinedSymbolLocationError,
            "MyClass in libFoo.a(MyClass.o)",
            "message",
            "MyClass in libFoo.a(MyClass.o)",
        ),
        (PatternId::PackageGraphResolvingStart, "Resolve Package Graph", "message", "Resolve Package Graph"),
        (
            PatternId::PackageGraphResolvingEnd,
            "Resolved source packages:",
            "message",
            "Resolved source packages",
        ),
        (
            PatternId::PackageGraphResolvedItem,
            "  StrasbourgParkAPI: https://github.com/x/y.git @ 3.0.2",
            "message",
            "StrasbourgParkAPI: https://github.com/x/y.git @ 3.0.2",
        ),
        (PatternId::ParallelTestFailed, "Test suite 'S.xctest' started on 'iPhone X'", "suite", "S.xctest"),
    ];
    for (id, line, name, expected) in cases {
        assert_eq!(registry.capture(id, line, name).as_deref(), Some(expected), "{:?} {}", id, name);
    }
}

#[test]
fn every_example_holds() {
    let registry = Registry::new().unwrap();
    assert_eq!(registry.first_failing_example(), None);
    for id in all_patterns() {
        assert_eq!(registry.pattern(id).first_failing_example(), None, "{:?}", id);
    }
}

#[test]
fn every_capture_name_is_shown_by_an_example() {
    let registry = Registry::new().unwrap();
    assert_eq!(registry.first_uncovered_name(), None);
    for id in all_patterns() {
        for example in id.examples() {
            assert!(
                registry.pattern(id).capture_names().iter().any(|n| n == example.name),
                "{:?} {}",
                id,
                example.name
            );
        }
    }
}

#[test]
fn a_false_example_does_not_hold() {
    let registry = Registry::new().unwrap();
    let pattern = registry.pattern(PatternId::Linking);
    let right = Example {
        line: "Ld /path/to/file.o normal x86_64 (in target 'Example' from project 'Example')",
        name: "filename",
        value: "file.o",
    };
    assert!(pattern.holds(&right));
    assert!(!pattern.holds(&Example { value: "file", ..right }));
    assert!(!pattern.holds(&Example { name: "no such group", ..right }));
    assert!(!pattern.holds(&Example { line: "CompileC a b", ..right }));
}

#[test]
fn examples_of_the_table() {
    let examples = PatternId::BuildTarget.examples();
    assert_eq!(examples.len(), 3);
    assert_eq!(examples[0].name, "target");
    assert_eq!(examples[0].value, "ExampleTarget");
    assert_eq!(examples[2].name, "configuration");
    assert_eq!(examples[2].value, "Local");
    assert!(PatternId::CheckDependencies.examples().is_empty());
}

#[test]
fn registry_from_the_outcomes_of_compiling() {
    let compile_all = || -> Vec<_> {
        all_patterns().into_iter().map(|id| Matcher::new(id.definition().source)).collect()
    };
    let registry = match Registry::from_compiled(compile_all()) {
        Ok(registry) => registry,
        Err(e) => panic!("{e:?}"),
    };
    for id in all_patterns() {
        assert_eq!(registry.pattern(id).pattern_id(), id);
    }
    assert_eq!(
        registry
            .capture(
                PatternId::Linking,
                "Ld /out/file.o normal x86_64 (in target 'T' from project 'P')",
                "filename"
            )
            .as_deref(),
        Some("file.o")
    );
    let mut outcomes = compile_all();
    outcomes[9] = Matcher::new("(");
    outcomes[5] = Matcher::new("(");
    assert_eq!(
        Registry::from_compiled(outcomes).err().map(|e| e.pattern),
        Some(PatternId::from_position(5))
    );
    let mut outcomes = compile_all();
    outcomes[PATTERN_COUNT - 1] = Matcher::new("(");
    assert_eq!(
        Registry::from_compiled(outcomes).err().map(|e| e.pattern),
        Some(PatternId::from_position(PATTERN_COUNT - 1))
    );
}

#[test]
fn matchers_come_back_where_the_engine_accepts() {
    assert!(Matcher::new("a+(?P<x>b)").is_ok());
    assert!(Matcher::new("(unclosed").is_err());
    assert!(Matcher::new(r"\w{1000}{1000}").is_err());
    let matcher = match Matcher::new("(?P<first>a+)(?P<second>b)?") {
        Ok(matcher) => matcher,
        Err(e) => panic!("{e:?}"),
    };
    let names = vec!["first".to_string(), "second".to_string(), "third".to_string()];
    assert_eq!(
        matcher.groups("xaay", &names),
        Some(vec![Some("aa".to_string()), None, None])
    );
    assert_eq!(matcher.groups("xyz", &names), None);
    assert_eq!(
        Pattern::from_compiled(PatternId::Cursor, Matcher::new("(")).err().map(|e| e.pattern),
        Some(PatternId::Cursor)
    );
}
