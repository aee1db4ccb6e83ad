use xcodebuild::block::{Block, LineClass, Progress};
use xcodebuild::error::ParseError;
use xcodebuild::parser::{parse_step_from_stream, start, start_kind};
use xcodebuild::registry::Registry;
use xcodebuild::step::kind::StepKind;
use xcodebuild::step::Step;
use xcodebuild::stream::OutputStream;

fn command_and_diagnostics(body: &[&str]) -> (String, Vec<String>) {
    let registry = Registry::new().unwrap();
    let mut lines: Vec<String> = body.iter().map(|l| l.to_string()).collect();
    lines.push(String::new());
    let mut stream = OutputStream::new(lines);
    let steps = parse_step_from_stream(
        "CompileC out.o a.c normal arm64 c clang".to_string(),
        &mut stream,
        &registry,
    )
    .unwrap();
    assert_eq!(stream.position(), body.len() + 1);
    let mut command = String::new();
    let mut diagnostics = Vec::new();
    for (n, step) in steps.into_iter().enumerate() {
        match step {
            Step::CompileC(step) => {
                assert_eq!(n, 0);
                command = step.command;
            },
            Step::Error(d) => {
                assert!(n > 0);
                diagnostics.push(format!("error {} {} {}", d.location, d.filepath, d.message))
            },
            Step::Warning(d) => {
                assert!(n > 0);
                diagnostics.push(format!("warning {} {} {}", d.location, d.filepath, d.message))
            },
            other => panic!("{other:?}"),
        }
    }
    (command, diagnostics)
}

#[test]
fn command_lines_are_trimmed_and_joined() {
    let (command, diagnostics) =
        command_and_diagnostics(&["    cd $ROOT", "    export LANG\\=en_US.US-ASCII", "\tclang ...  "]);
    assert_eq!(command, "cd $ROOT\nexport LANG\\=en_US.US-ASCII\nclang ...");
    assert!(diagnostics.is_empty());
}

#[test]
fn empty_block_has_an_empty_command() {
    let (command, diagnostics) = command_and_diagnostics(&[]);
    assert_eq!(command, "");
    assert!(diagnostics.is_empty());
}

#[test]
fn quoted_source_and_cursor_belong_to_the_diagnostic() {
    let (command, diagnostics) = command_and_diagnostics(&[
        "    clang -c a.c",
        "a.c:10:3: error: X",
        "    int x = y;",
        "            ^",
        "a.c:12:5: warning: Y",
        "    foo(bar);",
        "    ~~~ ^~~",
        "1 warning and 1 error generated.",
    ]);
    assert_eq!(command, "clang -c a.c\n1 warning and 1 error generated.");
    assert_eq!(diagnostics, vec!["error a.c:10:3 a.c X", "warning a.c:12:5 a.c Y"]);
}

#[test]
fn cursor_right_after_a_diagnostic() {
    let (command, diagnostics) =
        command_and_diagnostics(&["a.c:10:3: error: X", "  ^", "    clang -c a.c"]);
    assert_eq!(command, "clang -c a.c");
    assert_eq!(diagnostics, vec!["error a.c:10:3 a.c X"]);
}

#[test]
fn line_after_a_diagnostic_without_cursor_is_command() {
    let (command, diagnostics) = command_and_diagnostics(&[
        "    cd /tmp",
        "a.c:10:3: error: X",
        "    clang -c a.c",
        "a.c:12:5: warning: Y",
        "    clang -c b.c",
        "    clang -c c.c",
    ]);
    assert_eq!(command, "cd /tmp\nclang -c a.c\nclang -c b.c\nclang -c c.c");
    assert_eq!(diagnostics, vec!["error a.c:10:3 a.c X", "warning a.c:12:5 a.c Y"]);
}

#[test]
fn held_line_at_the_end_of_a_block_is_command() {
    let (command, diagnostics) = command_and_diagnostics(&["a.c:10:3: error: X", "    last line"]);
    assert_eq!(command, "last line");
    assert_eq!(diagnostics.len(), 1);
}

#[test]
fn cursor_line_among_the_command_is_command() {
    let (command, _) = command_and_diagnostics(&["    echo ^", "    done"]);
    assert_eq!(command, "echo ^\ndone");
}

#[test]
fn fatal_errors_are_errors() {
    let (command, diagnostics) =
        command_and_diagnostics(&["    /path/a.m:3:9: fatal error: 'x.h' file not found"]);
    assert_eq!(command, "");
    assert_eq!(diagnostics, vec!["error /path/a.m:3:9 /path/a.m 'x.h' file not found"]);
}

#[test]
fn diagnostics_keep_the_order_of_the_text() {
    let (_, diagnostics) = command_and_diagnostics(&[
        "b.c:1:1: warning: first",
        "a.c:2:2: error: second",
        "c.c:3:3: warning: third",
    ]);
    assert_eq!(
        diagnostics,
        vec!["warning b.c:1:1 b.c first", "error a.c:2:2 a.c second", "warning c.c:3:3 c.c third"]
    );
}

#[test]
fn classes_of_lines() {
    let registry = Registry::new().unwrap();
    match LineClass::classify("   a.c:10:3: error: X  ", &registry) {
        LineClass::Diagnostic(Step::Error(d)) => {
            assert_eq!(d.location, "a.c:10:3");
            assert_eq!(d.filepath, "a.c");
            assert_eq!(d.message, "X");
        },
        other => panic!("{other:?}"),
    }
    match LineClass::classify("a.c:12:5: warning: Y", &registry) {
        LineClass::Diagnostic(Step::Warning(d)) => assert_eq!(d.message, "Y"),
        other => panic!("{other:?}"),
    }
    match LineClass::classify("   ~~~^  ", &registry) {
        LineClass::Text { text, cursor } => {
            assert_eq!(text, "~~~^");
            assert!(cursor);
        },
        other => panic!("{other:?}"),
    }
    match LineClass::classify("    cd /root", &registry) {
        LineClass::Text { text, cursor } => {
            assert_eq!(text, "cd /root");
            assert!(!cursor);
        },
        other => panic!("{other:?}"),
    }
    match LineClass::of("plain".to_string(), None, None, true) {
        LineClass::Text { text, cursor } => {
            assert_eq!(text, "plain");
            assert!(cursor);
        },
        other => panic!("{other:?}"),
    }
}

#[test]
fn blocks_are_fed_line_by_line() {
    let registry = Registry::new().unwrap();
    let block = match start("Ld /out/file.o normal x86_64", &registry) {
        Progress::More(block) => block,
        Progress::Done(outcome) => panic!("{outcome:?}"),
    };
    let block = match block.feed(Some("    cd /x".to_string()), &registry) {
        Progress::More(block) => block,
        Progress::Done(outcome) => panic!("{outcome:?}"),
    };
    let block = match block.feed(Some("    ld -o file.o".to_string()), &registry) {
        Progress::More(block) => block,
        Progress::Done(outcome) => panic!("{outcome:?}"),
    };
    match block.feed(Some("   ".to_string()), &registry) {
        Progress::Done(Ok(steps)) => match steps.as_slice() {
            [Step::Ld(step)] => assert_eq!(step.command, "cd /x\nld -o file.o"),
            other => panic!("{other:?}"),
        },
        _ => panic!("the blank line ends the block"),
    }
}

#[test]
fn end_of_the_source_drops_the_block() {
    let registry = Registry::new().unwrap();
    let block = match start_kind(StepKind::Ld, "/out/file.o normal x86_64", &registry) {
        Progress::More(block) => block,
        Progress::Done(outcome) => panic!("{outcome:?}"),
    };
    let block = match block.feed(Some("    cd /x".to_string()), &registry) {
        Progress::More(block) => block,
        Progress::Done(outcome) => panic!("{outcome:?}"),
    };
    match block.feed(None, &registry) {
        Progress::Done(Ok(steps)) => assert!(steps.is_empty()),
        _ => panic!("the end of the source ends the block"),
    }
}

#[test]
fn lines_that_need_no_block_are_done_at_once() {
    let registry = Registry::new().unwrap();
    assert!(matches!(
        start("** BUILD SUCCEEDED **", &registry),
        Progress::Done(Ok(steps)) if matches!(steps.as_slice(), [Step::BuildSucceed])
    ));
    assert!(matches!(start("", &registry), Progress::Done(Err(ParseError::EmptyHeader))));
    assert!(matches!(start("Ld", &registry), Progress::Done(Err(ParseError::MissingField { .. }))));
    assert!(matches!(start("Touch /x", &registry), Progress::More(_)));
    assert!(matches!(
        start_kind(StepKind::LinkStoryboards, "", &registry),
        Progress::Done(Ok(steps)) if steps.len() == 1
    ));
}

#[test]
fn skipped_blocks_take_every_line() {
    let registry = Registry::new().unwrap();
    let mut block = Block::skipping();
    for line in ["a.c:10:3: error: X", "    cd /x", "  ^"] {
        block = match block.feed(Some(line.to_string()), &registry) {
            Progress::More(block) => block,
            Progress::Done(outcome) => panic!("{outcome:?}"),
        };
    }
    assert!(block.finish().is_empty());
}

#[test]
fn blocks_by_hand() {
    let block = Block::collecting(Step::Note("n".to_string()));
    let block = block.take(LineClass::Text { text: "one".to_string(), cursor: false });
    let block = block.take(LineClass::Diagnostic(Step::TestFailed));
    let block = block.take(LineClass::Text { text: "two".to_string(), cursor: false });
    let steps = block.finish();
    assert!(matches!(steps.as_slice(), [Step::Note(_), Step::TestFailed]));
}

#[test]
fn a_whole_log_in_order() {
    let log = "\
note: Using new build system
note: Planning
note: Build preparation complete

CreateBuildDirectory /build
    cd /project
    builtin-create-build-directory /build

CompileC /build/a.o /src/a.c normal arm64 c com.apple.compilers.llvm.clang.1_0.compiler (in target 'App' from project 'App')
    cd /project
    /usr/bin/clang -c /src/a.c -o /build/a.o
/src/a.c:3:1: warning: unused variable 'x'
    int x;
        ^

CompileC /build/b.o
    cd /project

Ld /build/App normal arm64 (in target 'App' from project 'App')
    cd /project
    /usr/bin/clang -o /build/App

Touch /build/App.app (in target 'App' from project 'App')
    cd /project
    /usr/bin/touch -c /build/App.app

RegisterExecutionPolicyException /build/App.app (in target 'App' from project 'App')
    cd /project
    builtin-RegisterExecutionPolicyException /build/App.app

** BUILD SUCCEEDED **
";
    let registry = Registry::new().unwrap();
    let mut stream = OutputStream::new(log.split('\n').map(|l| l.to_string()).collect());
    let mut seen: Vec<String> = Vec::new();
    while let Some(line) = stream.next_line() {
        match parse_step_from_stream(line, &mut stream, &registry) {
            Ok(steps) => {
                for step in steps {
                    let shown = format!("{step:?}");
                    let name = shown.split(|c| c == '(' || c == ' ').next().unwrap().to_string();
                    seen.push(name);
                }
            },
            Err(ParseError::EmptyHeader) => {},
            Err(error) => seen.push(format!("{error:?}")),
        }
    }
    assert!(stream.is_exhausted());
    assert_eq!(
        seen,
        vec![
            "NewBuildSystem",
            "Planning",
            "CreateBuildDirectory",
            "CompileC",
            "Warning",
            "MissingField { kind: CompileC, field: Path }",
            "Ld",
            "RegisterExecutionPolicyException",
            "BuildSucceed",
        ]
    );
}
