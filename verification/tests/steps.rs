use xcodebuild::error::ParseError;
use xcodebuild::outputs::{CodeSign, CompileSwift, Ld, LinkStoryboards, ScriptExecution};
use xcodebuild::parser::parse_step_from_stream;
use xcodebuild::registry::Registry;
use xcodebuild::step::kind::{Field, StepKind};
use xcodebuild::step::record::Header;
use xcodebuild::step::Step;
use xcodebuild::stream::OutputStream;

fn one_step(header: &str) -> Step {
    let registry = Registry::new().unwrap();
    let lines = vec!["    cd /root".to_string(), "    tool --flag".to_string(), "".to_string()];
    let mut stream = OutputStream::new(lines);
    let mut steps = parse_step_from_stream(header.to_string(), &mut stream, &registry).unwrap();
    assert_eq!(steps.len(), 1, "{header}");
    assert_eq!(stream.position(), 3, "{header}");
    steps.remove(0)
}

fn target(description: &Option<xcodebuild::description::Description>) -> Option<&str> {
    description.as_ref().map(|d| d.target.as_str())
}

const COMMAND: &str = "cd /root\ntool --flag";

#[test]
fn invocation() {
    match one_step("Command line invocation:") {
        Step::Invocation(step) => {
            assert_eq!(step.command, COMMAND);
            assert!(step.description.is_none());
        },
        other => panic!("{other:?}"),
    }
}

#[test]
fn compile_swift() {
    match one_step(
        "CompileSwift normal arm64 /path/to/ToastView.swift (in target 'Example' from project 'Demo')",
    ) {
        Step::CompileSwift(step) => {
            assert_eq!(step.arch, "arm64");
            assert_eq!(step.path, "/path/to/ToastView.swift");
            assert_eq!(step.filename.as_deref(), Some("ToastView.swift"));
            assert_eq!(target(&step.description), Some("Example"));
            assert_eq!(step.description.unwrap().project, "Demo");
            assert_eq!(step.command, COMMAND);
        },
        other => panic!("{other:?}"),
    }
}

#[test]
fn compile_swift_sources() {
    match one_step(
        "CompileSwiftSources normal arm64 com.apple.xcode.tools.swift.compiler (in target 'T' from project 'P')",
    ) {
        Step::CompileSwiftSources(step) => {
            assert_eq!(step.arch, "arm64");
            assert_eq!(step.compiler, "com.apple.xcode.tools.swift.compiler");
            assert_eq!(target(&step.description), Some("T"));
            assert_eq!(step.command, COMMAND);
        },
        other => panic!("{other:?}"),
    }
}

#[test]
fn code_sign() {
    match one_step("CodeSign path/to/DemoTarget.app (in target 'DemoTarget' from project 'DemoProject')") {
        Step::CodeSign(step) => {
            assert_eq!(step.path, "path/to/DemoTarget.app");
            assert_eq!(step.filename.as_deref(), Some("DemoTarget.app"));
            assert_eq!(target(&step.description), Some("DemoTarget"));
            assert_eq!(step.command, COMMAND);
        },
        other => panic!("{other:?}"),
    }
}

#[test]
fn compile_asset_catalog() {
    match one_step(
        "CompileAssetCatalog /output/Example.app /input/Assets.xcassets (in target 'Example' from project 'Example')",
    ) {
        Step::CompileAssetCatalog(step) => {
            assert_eq!(step.output_path, "/output/Example.app");
            assert_eq!(step.path, "/input/Assets.xcassets");
            assert_eq!(target(&step.description), Some("Example"));
        },
        other => panic!("{other:?}"),
    }
}

#[test]
fn compile_storyboard_and_xib() {
    match one_step(
        "CompileStoryboard /path/to/LaunchScreen.storyboard (in target 'Example' from project 'Example')",
    ) {
        Step::CompileStoryboard(step) => {
            assert_eq!(step.path, "/path/to/LaunchScreen.storyboard");
            assert_eq!(step.filename.as_deref(), Some("LaunchScreen.storyboard"));
        },
        other => panic!("{other:?}"),
    }
    match one_step("CompileXIB /path/to/MainMenu.xib (in target 'Example' from project 'Example')") {
        Step::CompileXIB(step) => {
            assert_eq!(step.path, "/path/to/MainMenu.xib");
            assert_eq!(step.filename.as_deref(), Some("MainMenu.xib"));
        },
        other => panic!("{other:?}"),
    }
}

#[test]
fn swift_module_steps() {
    match one_step("PrecompileSwiftBridgingHeader normal arm64 (in target 'T' from project 'P')") {
        Step::PrecompileSwiftBridgingHeader(step) => {
            assert_eq!(step.arch, "arm64");
            assert_eq!(target(&step.description), Some("T"));
        },
        other => panic!("{other:?}"),
    }
    match one_step("MergeSwiftModule normal x86_64 (in target 'T' from project 'P')") {
        Step::MergeSwiftModule(step) => assert_eq!(step.arch, "x86_64"),
        other => panic!("{other:?}"),
    }
    match one_step("EmitSwiftModule normal arm64 (in target 'T' from project 'P')") {
        Step::EmitSwiftModule(step) => assert_eq!(step.arch, "arm64"),
        other => panic!("{other:?}"),
    }
}

#[test]
fn product_steps() {
    match one_step("CopySwiftLibs /path/App.app (in target 'T' from project 'P')") {
        Step::CopySwiftLibs(step) => assert_eq!(step.path, "/path/App.app"),
        other => panic!("{other:?}"),
    }
    match one_step("Validate /path/App.app (in target 'T' from project 'P')") {
        Step::Validate(step) => {
            assert_eq!(step.path, "/path/App.app");
            assert_eq!(step.command, COMMAND);
        },
        other => panic!("{other:?}"),
    }
    match one_step("CreateBuildDirectory /path/to/build") {
        Step::CreateBuildDirectory(step) => {
            assert_eq!(step.path, "/path/to/build");
            assert!(step.description.is_none());
        },
        other => panic!("{other:?}"),
    }
}

#[test]
fn copy_resource() {
    match one_step(
        "CpResource /output/EnWords.txt /path/to/EnWords.txt (in target 'Example' from project 'Example')",
    ) {
        Step::CopyResource(step) => {
            assert_eq!(step.output_path, "/output/EnWords.txt");
            assert_eq!(step.path, "/path/to/EnWords.txt");
            assert_eq!(step.filename.as_deref(), Some("EnWords.txt"));
        },
        other => panic!("{other:?}"),
    }
}

#[test]
fn generate_dsym_file() {
    match one_step(
        "GenerateDSYMFile /$BUILD/Release/DemoTarget.app.dSYM /$BUILD/Release/DemoTarget.app/Contents/MacOS/DemoTarget (in target 'DemoTarget' from project 'DemoProject')",
    ) {
        Step::GenerateDSYMFile(step) => {
            assert_eq!(step.output_path, "/$BUILD/Release/DemoTarget.app.dSYM");
            assert_eq!(step.path, "/$BUILD/Release/DemoTarget.app/Contents/MacOS/DemoTarget");
            assert_eq!(step.filename.as_deref(), Some("DemoTarget.app.dSYM"));
            assert_eq!(step.description.unwrap().project, "DemoProject");
        },
        other => panic!("{other:?}"),
    }
}

#[test]
fn script_execution() {
    match one_step(
        "PhaseScriptExecution Format\\ Swift\\ Files /path/to/file.sh (in target 'DemoTarget' from project 'DemoProject')",
    ) {
        Step::ScriptExecution(step) => {
            assert_eq!(step.name.as_deref(), Some("Format\\ Swift\\ Files"));
            assert_eq!(target(&step.description), Some("DemoTarget"));
            assert_eq!(step.command, COMMAND);
        },
        other => panic!("{other:?}"),
    }
    match one_step("PhaseScriptExecution") {
        Step::ScriptExecution(step) => {
            assert!(step.name.is_none());
            assert!(step.description.is_none());
        },
        other => panic!("{other:?}"),
    }
}

#[test]
fn process_info_plist_file() {
    match one_step(
        "ProcessInfoPlistFile /path/to/output/Info.plist /path/to/Info.plist (in target 'Example' from project 'Example')",
    ) {
        Step::ProcessInfoPlistFile(step) => {
            assert_eq!(step.output_path, "/path/to/output/Info.plist");
            assert_eq!(step.path, "/path/to/Info.plist");
            assert_eq!(step.filename.as_deref(), Some("Info.plist"));
        },
        other => panic!("{other:?}"),
    }
}

#[test]
fn name_is_absent_where_the_pattern_does_not_match() {
    match one_step("Ld /out/binary normal arm64 (in target 'T' from project 'P')") {
        Step::Ld(step) => {
            assert_eq!(step.path, "/out/binary");
            assert_eq!(step.filename, None);
            assert_eq!(target(&step.description), Some("T"));
        },
        other => panic!("{other:?}"),
    }
}

#[test]
fn typed_constructors() {
    let registry = Registry::new().unwrap();
    let step = Ld::new("/out/file.o normal x86_64", &registry).unwrap();
    assert_eq!(step.path, "/out/file.o");
    assert_eq!(step.arch, "x86_64");
    assert_eq!(step.command, "");
    assert!(step.description.is_none());
    let step = CompileSwift::new("   normal \t arm64   a.swift  ", &registry).unwrap();
    assert_eq!(step.arch, "arm64");
    assert_eq!(step.path, "a.swift");
    let step = CodeSign::new("/x/A.app", &registry).unwrap();
    assert_eq!(step.path, "/x/A.app");
    assert!(LinkStoryboards::new("", &registry).unwrap().description.is_none());
    assert!(ScriptExecution::new("", &registry).is_ok());
    assert_eq!(
        Ld::new("/out/file.o normal", &registry).unwrap_err(),
        ParseError::MissingField { kind: StepKind::Ld, field: Field::Arch }
    );
}

#[test]
fn names_are_recovered_with_the_keyword_put_back() {
    let registry = Registry::new().unwrap();
    let step =
        Ld::new("/out/file.o normal x86_64 (in target 'T' from project 'P')", &registry).unwrap();
    assert_eq!(step.filename.as_deref(), Some("file.o"));
    assert_eq!(step.description.unwrap().target, "T");
    let step = CodeSign::new("path/to/Demo.app (in target 'T' from project 'P')", &registry).unwrap();
    assert_eq!(step.filename.as_deref(), Some("Demo.app"));
    let step = ScriptExecution::new(
        "Run\\ Script /path/to/file.sh (in target 'T' from project 'P')",
        &registry,
    )
    .unwrap();
    assert_eq!(step.name.as_deref(), Some("Run\\ Script"));
    assert_eq!(Header::with_keyword(StepKind::CopyResource, "/a /b"), "CpResource /a /b");
    assert_eq!(Header::with_keyword(StepKind::Ld, ""), "Ld ");
}

#[test]
fn first_missing_field_of_each_kind() {
    let cases = [
        ("CompileSwift normal", StepKind::CompileSwift, Field::Arch),
        ("CompileSwift normal arm64", StepKind::CompileSwift, Field::Path),
        ("CompileSwiftSources normal arm64", StepKind::CompileSwiftSources, Field::Compiler),
        ("CompileC", StepKind::CompileC, Field::OutputPath),
        ("CodeSign", StepKind::CodeSign, Field::Path),
        ("CompileAssetCatalog /out", StepKind::CompileAssetCatalog, Field::Path),
        ("CompileStoryboard", StepKind::CompileStoryboard, Field::Path),
        ("CompileXIB", StepKind::CompileXIB, Field::Path),
        ("PrecompileSwiftBridgingHeader normal", StepKind::PrecompileSwiftBridgingHeader, Field::Arch),
        ("CopySwiftLibs", StepKind::CopySwiftLibs, Field::Path),
        ("Ld", StepKind::Ld, Field::Path),
        ("Ld /out normal", StepKind::Ld, Field::Arch),
        ("RegisterExecutionPolicyException", StepKind::RegisterExecutionPolicyException, Field::Path),
        ("CpResource", StepKind::CopyResource, Field::OutputPath),
        ("CreateBuildDirectory", StepKind::CreateBuildDirectory, Field::Path),
        ("GenerateDSYMFile /out", StepKind::GenerateDSYMFile, Field::Path),
        ("MergeSwiftModule", StepKind::MergeSwiftModule, Field::Arch),
        ("EmitSwiftModule normal", StepKind::EmitSwiftModule, Field::Arch),
        ("ProcessInfoPlistFile", StepKind::ProcessInfoPlistFile, Field::OutputPath),
        ("ProcessProductPackaging \"\"", StepKind::ProcessProductPackaging, Field::Path),
        ("Validate", StepKind::Validate, Field::Path),
    ];
    let registry = Registry::new().unwrap();
    for (header, kind, field) in cases {
        let mut stream = OutputStream::new(vec!["    cd /x".to_string(), "".to_string()]);
        let outcome = parse_step_from_stream(header.to_string(), &mut stream, &registry);
        assert_eq!(outcome.unwrap_err(), ParseError::MissingField { kind, field }, "{header}");
        assert_eq!(stream.position(), 0, "{header}");
    }
}

#[test]
fn keywords_and_layouts() {
    assert_eq!(StepKind::from_keyword("Command"), Some(StepKind::Invocation));
    assert_eq!(StepKind::from_keyword("CpResource"), Some(StepKind::CopyResource));
    assert_eq!(StepKind::from_keyword("PhaseScriptExecution"), Some(StepKind::ScriptExecution));
    assert_eq!(StepKind::from_keyword("CompileC"), Some(StepKind::CompileC));
    assert_eq!(StepKind::from_keyword("compilec"), None);
    assert_eq!(StepKind::from_keyword("Touch"), None);
    assert_eq!(StepKind::CompileC.keyword(), "CompileC");
    assert_eq!(StepKind::CopyResource.keyword(), "CpResource");
    assert_eq!(
        StepKind::CompileC.layout(),
        vec![
            (Field::OutputPath, 0),
            (Field::Path, 1),
            (Field::Arch, 3),
            (Field::Lang, 4),
            (Field::Compiler, 5)
        ]
    );
    assert!(StepKind::LinkStoryboards.layout().is_empty());
    assert!(StepKind::CompileC.has_block());
    assert!(!StepKind::LinkStoryboards.has_block());
    assert!(!StepKind::RegisterExecutionPolicyException.has_block());
    assert_eq!(Field::OutputPath.name(), "output_path");
    assert_eq!(Field::Compiler.name(), "compiler");
    assert!(StepKind::CompileC.name_source().is_none());
    assert!(StepKind::Ld.name_source().is_some());
}

#[test]
fn header_fields_in_layout_order() {
    let registry = Registry::new().unwrap();
    let header = Header::read(
        StepKind::CompileC,
        "out.o in.c normal arm64 c clang (in target 'T' from project 'P')",
        &registry,
    )
    .unwrap();
    assert_eq!(header.kind, StepKind::CompileC);
    assert_eq!(header.fields, vec!["out.o", "in.c", "arm64", "c", "clang"]);
    assert_eq!(header.name, None);
    assert_eq!(header.description.unwrap().target, "T");
}

#[test]
fn with_command_sets_the_command_of_a_block_kind() {
    let registry = Registry::new().unwrap();
    let step = Step::from_header(StepKind::Ld, "/out/file.o normal x86_64", &registry).unwrap();
    match step.with_command("ld -o file.o".to_string()) {
        Step::Ld(step) => assert_eq!(step.command, "ld -o file.o"),
        other => panic!("{other:?}"),
    }
    assert!(matches!(Step::Planning.with_command("x".to_string()), Step::Planning));
}
