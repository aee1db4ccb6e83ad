use xcodebuild::description::Description;
use xcodebuild::error::ParseError;
use xcodebuild::outputs::CompileC;
use xcodebuild::parser::{parse_step_from_stream, ParsableFromStream};
use xcodebuild::registry::Registry;
use xcodebuild::step::kind::{Field, StepKind};
use xcodebuild::step::Step;
use xcodebuild::stream::OutputStream;
use xcodebuild::text::header_tail;

fn stream_of(text: &str) -> (String, OutputStream) {
    let mut lines = text.split('\n').map(|l| l.to_string());
    let header = lines.next().unwrap();
    (header, OutputStream::new(lines.collect()))
}

fn parse(text: &str) -> (Result<Vec<Step>, ParseError>, usize) {
    let registry = Registry::new().unwrap();
    let (header, mut stream) = stream_of(text);
    let steps = parse_step_from_stream(header, &mut stream, &registry);
    (steps, stream.position())
}

#[test]
fn test() {
    let registry = Registry::new().unwrap();
    let (header, mut stream) = stream_of(
        r#"CompileC path/to/output/bridge.o path/to/input/bridge.c normal arm64 c com.apple.compilers.llvm.clang.1_0.compiler (in target 'DemoTarget' from project 'DemoProject')
    cd $ROOT
    export LANG\=en_US.US-ASCII
    /Applications/Xcode.app/Contents/Developer/Toolchains/XcodeDefault.xctoolchain/usr/bin/clang ...

    "#,
    );
    let steps = CompileC::parse_from_stream(header_tail(&header), &mut stream, &registry).unwrap();
    if let Step::CompileC(step) = steps.first().unwrap() {
        let description = step.description.as_ref().unwrap();
        assert_eq!("DemoTarget", &description.target);
        assert_eq!("DemoProject", &description.project);

        assert_eq!("arm64", &step.arch);
        assert_eq!("c", &step.lang);
        assert_eq!("path/to/input/bridge.c", step.path);
        assert_eq!("path/to/output/bridge.o", step.output_path);
    } else {
        panic!("No script execution {steps:#?}")
    }
}

#[test]
fn fmt() {
    let data = CompileC {
        compiler: "com.apple.compilers.llvm.clang.1_0.compiler".into(),
        description: Some(Description {
            project: "DemoProject".into(),
            target: "DemoTarget".into(),
        }),
        output_path: "".into(),
        path: "/path/to/file.c".into(),
        arch: "arm".into(),
        lang: "c".into(),
        command: "".into(),
    };

    assert_eq!(
        "[DemoProject.DemoTarget] Compiling    `file.c`",
        &data.to_string(),
    );
}

#[test]
fn compile_c_without_description_shows_the_file_alone() {
    let data = CompileC {
        compiler: "clang".into(),
        description: None,
        output_path: "out.o".into(),
        path: "file.c".into(),
        arch: "arm".into(),
        lang: "c".into(),
        command: "".into(),
    };
    assert_eq!("Compiling    `file.c`", &data.to_string());
}

#[test]
fn compile_c_block_is_consumed_with_its_blank_line() {
    let (steps, position) = parse(
        "CompileC out.o in.c normal arm64 c clang (in target 'T' from project 'P')\n    cd /root\n    clang -c in.c \\\n      -o out.o\n\nLd next",
    );
    let steps = steps.unwrap();
    assert_eq!(steps.len(), 1);
    assert_eq!(position, 4);
    match &steps[0] {
        Step::CompileC(step) => {
            assert_eq!(step.command, "cd /root\nclang -c in.c \\\n-o out.o");
            assert_eq!(step.compiler, "clang");
        },
        other => panic!("{other:?}"),
    }
}

#[test]
fn whitespace_around_a_header_does_not_count() {
    let bare = "CompileC out.o in.c normal arm64 c clang (in target 'T' from project 'P')";
    let body = "\n    cd /root\n\nnext";
    let (plain, plain_position) = parse(&format!("{bare}{body}"));
    let (padded, padded_position) = parse(&format!(" \t  {bare} \u{a0} {body}"));
    assert_eq!(plain_position, 2);
    assert_eq!(padded_position, 2);
    assert_eq!(format!("{:?}", plain.unwrap()), format!("{:?}", padded.unwrap()));
    let (spread, _) = parse("CompileC   out.o \t in.c   normal   arm64  c    clang\n\n");
    match spread.unwrap().as_slice() {
        [Step::CompileC(step)] => {
            assert_eq!(step.output_path, "out.o");
            assert_eq!(step.path, "in.c");
            assert_eq!(step.arch, "arm64");
            assert_eq!(step.lang, "c");
            assert_eq!(step.compiler, "clang");
        },
        other => panic!("{other:?}"),
    }
}

#[test]
fn extractor_reads_the_header_tail() {
    let registry = Registry::new().unwrap();
    let lines = vec!["    cd /r".to_string(), "".to_string(), "next".to_string()];
    let mut stream = OutputStream::new(lines);
    let steps = CompileC::parse_from_stream(
        "/b/a.o /s/a.c normal arm64 c clang".to_string(),
        &mut stream,
        &registry,
    )
    .unwrap();
    assert_eq!(stream.position(), 2);
    match steps.as_slice() {
        [Step::CompileC(step)] => {
            assert_eq!(step.output_path, "/b/a.o");
            assert_eq!(step.path, "/s/a.c");
            assert_eq!(step.arch, "arm64");
            assert_eq!(step.lang, "c");
            assert_eq!(step.compiler, "clang");
            assert!(step.description.is_none());
            assert_eq!(step.command, "cd /r");
        },
        other => panic!("{other:?}"),
    }
}

#[test]
fn extractor_finds_diagnostics_behind_a_tail() {
    let registry = Registry::new().unwrap();
    let lines: Vec<String> = [
        "    cd /r",
        "    clang -c /s/a.c -o /b/a.o",
        "a.c:10:3: error: X",
        "a.c:12:5: warning: Y",
        "",
    ]
    .iter()
    .map(|l| l.to_string())
    .collect();
    let mut stream = OutputStream::new(lines);
    let steps = CompileC::parse_from_stream(
        "/b/a.o /s/a.c normal arm64 c clang (in target 'T' from project 'P')".to_string(),
        &mut stream,
        &registry,
    )
    .unwrap();
    assert_eq!(stream.position(), 5);
    match steps.as_slice() {
        [Step::CompileC(step), Step::Error(error), Step::Warning(warning)] => {
            assert_eq!(step.output_path, "/b/a.o");
            assert_eq!(step.path, "/s/a.c");
            assert_eq!(step.description.as_ref().unwrap().target, "T");
            assert_eq!(step.description.as_ref().unwrap().project, "P");
            assert_eq!(error.location, "a.c:10:3");
            assert_eq!(error.message, "X");
            assert_eq!(warning.location, "a.c:12:5");
            assert_eq!(warning.message, "Y");
        },
        other => panic!("{other:?}"),
    }
}

#[test]
fn extractor_names_the_first_field_that_the_tail_lacks() {
    let registry = Registry::new().unwrap();
    let cases = [
        ("", Field::OutputPath),
        ("   ", Field::OutputPath),
        ("out.o", Field::Path),
        ("out.o in.c", Field::Arch),
        ("out.o in.c normal", Field::Arch),
        ("out.o in.c normal arm64", Field::Lang),
        ("out.o in.c normal arm64 c", Field::Compiler),
    ];
    for (tail, field) in cases {
        let mut stream = OutputStream::new(vec!["    cd /r".to_string(), "".to_string()]);
        let outcome = CompileC::parse_from_stream(tail.to_string(), &mut stream, &registry);
        assert_eq!(
            outcome.unwrap_err(),
            ParseError::MissingField { kind: StepKind::CompileC, field },
            "{tail:?}"
        );
        assert_eq!(stream.position(), 0);
    }
}

#[test]
fn shown_text_depends_on_the_file_name_alone() {
    let step = |path: &str, arch: &str| CompileC {
        compiler: "clang".into(),
        description: Some(Description { project: "P".into(), target: "T".into() }),
        output_path: "out.o".into(),
        path: path.into(),
        arch: arch.into(),
        lang: "c".into(),
        command: "".into(),
    };
    assert_eq!(step("/usr/bin/", "arm").to_string(), "[P.T] Compiling    `bin`");
    assert_eq!(step("bin", "x86").to_string(), step("/usr/bin/", "arm").to_string());
    assert_eq!(step("a/b/./file.c/.", "arm").to_string(), step("file.c", "arm").to_string());
}

#[test]
fn compile_c_missing_fields() {
    let cases = [
        ("CompileC", Field::OutputPath),
        ("CompileC out.o", Field::Path),
        ("CompileC out.o in.c", Field::Arch),
        ("CompileC out.o in.c normal", Field::Arch),
        ("CompileC out.o in.c normal arm64", Field::Lang),
        ("CompileC out.o in.c normal arm64 c", Field::Compiler),
    ];
    for (header, field) in cases {
        let (steps, position) = parse(&format!("{header}\n    cd /root\n\n"));
        assert_eq!(
            steps.unwrap_err(),
            ParseError::MissingField { kind: StepKind::CompileC, field }
        );
        assert_eq!(position, 0);
    }
}

#[test]
fn diagnostics_follow_the_primary_step() {
    let (steps, position) = parse(
        "CompileC out.o a.c normal arm64 c clang (in target 'T' from project 'P')\n    cd /root\n    clang -c a.c\na.c:10:3: error: X\n  foo();\n  ^\na.c:12:5: warning: Y\n\nnext",
    );
    let steps = steps.unwrap();
    assert_eq!(position, 7);
    assert_eq!(steps.len(), 3);
    match &steps[0] {
        Step::CompileC(step) => assert_eq!(step.command, "cd /root\nclang -c a.c"),
        other => panic!("{other:?}"),
    }
    match &steps[1] {
        Step::Error(d) => {
            assert_eq!(d.location, "a.c:10:3");
            assert_eq!(d.filepath, "a.c");
            assert_eq!(d.message, "X");
        },
        other => panic!("{other:?}"),
    }
    match &steps[2] {
        Step::Warning(d) => {
            assert_eq!(d.location, "a.c:12:5");
            assert_eq!(d.filepath, "a.c");
            assert_eq!(d.message, "Y");
        },
        other => panic!("{other:?}"),
    }
}

#[test]
fn ld_round_trip() {
    let (steps, position) =
        parse("Ld /out/file.o normal x86_64 (in target 'T' from project 'P')\n    cd /x\n\n");
    let steps = steps.unwrap();
    assert_eq!(position, 2);
    assert_eq!(steps.len(), 1);
    match &steps[0] {
        Step::Ld(step) => {
            assert_eq!(step.path, "/out/file.o");
            assert_eq!(step.arch, "x86_64");
            assert_eq!(step.filename.as_deref(), Some("file.o"));
            let description = step.description.as_ref().unwrap();
            assert_eq!(description.target, "T");
            assert_eq!(description.project, "P");
            assert_eq!(step.command, "cd /x");
        },
        other => panic!("{other:?}"),
    }
}

#[test]
fn skip_list_blocks_yield_nothing() {
    for keyword in ["Create", "User", "Touch", "MkDir", "Copy", "WriteAuxiliaryFile", "Analyze", "cd"] {
        let (steps, position) =
            parse(&format!("{keyword} /some/path\n    first\n    second\n   \nCompileC next\n"));
        assert!(steps.unwrap().is_empty());
        assert_eq!(position, 3);
    }
}

#[test]
fn unknown_keywords_are_skipped() {
    let (steps, position) = parse("SomethingNew a b c\n    line\n\nrest");
    assert!(steps.unwrap().is_empty());
    assert_eq!(position, 2);
}

#[test]
fn terminal_markers() {
    let cases = [
        ("** BUILD SUCCEEDED **", "BuildSucceed"),
        ("** BUILD FAILED **", "BuildFailed"),
        ("** BUILD FAILED ** (overall summary)", "BuildFailed"),
        ("** CLEAN SUCCEEDED **", "CleanSucceed"),
        ("** TEST SUCCEEDED **", "TestSucceed"),
        ("** TEST FAILED **", "TestFailed"),
        ("   ** BUILD SUCCEEDED ** [1.2 sec]  ", "BuildSucceed"),
    ];
    for (line, expected) in cases {
        let (steps, position) = parse(&format!("{line}\nnext\n\n"));
        let steps = steps.unwrap();
        assert_eq!(steps.len(), 1);
        assert_eq!(format!("{:?}", steps[0]), expected);
        assert_eq!(position, 0);
    }
}

#[test]
fn unknown_marker_is_skipped() {
    let (steps, position) = parse("** ARCHIVE SUCCEEDED **\nline\n\nrest");
    assert!(steps.unwrap().is_empty());
    assert_eq!(position, 2);
}

#[test]
fn notes() {
    let (steps, position) = parse("note: Planning\nnext");
    assert!(matches!(steps.unwrap().as_slice(), [Step::Planning]));
    assert_eq!(position, 0);
    let (steps, _) = parse("note: Using new build system");
    assert!(matches!(steps.unwrap().as_slice(), [Step::NewBuildSystem]));
    let (steps, _) = parse("note: Build preparation complete");
    assert!(steps.unwrap().is_empty());
    let (steps, _) = parse("Note Something else   ");
    match steps.unwrap().as_slice() {
        [Step::Note(text)] => assert_eq!(text, "Something else"),
        other => panic!("{other:?}"),
    }
}

#[test]
fn provisioning_profile_packaging_is_suppressed() {
    let (steps, position) = parse(
        "ProcessProductPackaging /path/to/embedded.mobileprovision /path/App.app/embedded.mobileprovision (in target 'T' from project 'P')\n    cd /x\n\n",
    );
    assert!(steps.unwrap().is_empty());
    assert_eq!(position, 0);
    let (steps, position) = parse(
        "ProcessProductPackaging \"\" /path/App.app.xcent (in target 'T' from project 'P')\n    cd /x\n\n",
    );
    let steps = steps.unwrap();
    assert_eq!(position, 2);
    match steps.as_slice() {
        [Step::ProcessProductPackaging(step)] => assert_eq!(step.path, "/path/App.app.xcent"),
        other => panic!("{other:?}"),
    }
}

#[test]
fn empty_header_is_an_error() {
    for line in ["", "   ", "\t"] {
        let (steps, position) = parse(&format!("{line}\nnext\n\n"));
        assert_eq!(steps.unwrap_err(), ParseError::EmptyHeader);
        assert_eq!(position, 0);
    }
}

#[test]
fn unfinished_block_is_dropped() {
    let (steps, position) =
        parse("CompileC out.o in.c normal arm64 c clang\n    cd /root\n    clang -c in.c");
    assert!(steps.unwrap().is_empty());
    assert_eq!(position, 2);
}

#[test]
fn header_only_kinds_read_no_line() {
    let (steps, position) = parse(
        "RegisterExecutionPolicyException /path/App.app (in target 'T' from project 'P')\n    cd /x\n\n",
    );
    assert_eq!(position, 0);
    match steps.unwrap().as_slice() {
        [Step::RegisterExecutionPolicyException(step)] => {
            assert_eq!(step.path, "/path/App.app");
            assert_eq!(step.description.as_ref().unwrap().target, "T");
        },
        other => panic!("{other:?}"),
    }
    let (steps, position) = parse("LinkStoryboards (in target 'T' from project 'P')\n    cd /x\n\n");
    assert_eq!(position, 0);
    match steps.unwrap().as_slice() {
        [Step::LinkStoryboards(step)] => {
            assert_eq!(step.description.as_ref().unwrap().project, "P")
        },
        other => panic!("{other:?}"),
    }
}

#[test]
fn description_is_optional() {
    let (steps, _) = parse("CompileC out.o in.c normal arm64 c clang\n\n");
    match steps.unwrap().as_slice() {
        [Step::CompileC(step)] => assert!(step.description.is_none()),
        other => panic!("{other:?}"),
    }
    let (steps, _) = parse("CompileC out.o in.c normal arm64 c clang (in target '' from project 'P')\n\n");
    match steps.unwrap().as_slice() {
        [Step::CompileC(step)] => assert!(step.description.is_none()),
        other => panic!("{other:?}"),
    }
}
