use xcodebuild::registry::capture::CaptureSet;
use xcodebuild::registry::table::PatternId;
use xcodebuild::registry::Registry;

fn captures(pattern: PatternId, line: &str) -> CaptureSet {
    let registry = Registry::new().unwrap();
    match registry.captures(pattern, line) {
        Some(set) => set,
        None => panic!("{:?} does not match {:?}", pattern, line),
    }
}

#[test]
fn analyze_examples() {
    let set = captures(
        PatternId::Analyze,
        r"AnalyzeShallow /path/to/file.m normal x86_64 (in target 'MyTarget' from project 'MyProject')",
    );
    assert_eq!(set.get("filepath"), Some("/path/to/file.m".to_string()));
    assert_eq!(set.get("filename"), Some("file.m".to_string()));
    assert_eq!(set.get("target"), Some("MyTarget".to_string()));
    assert_eq!(set.get("project"), Some("MyProject".to_string()));
    let set = captures(
        PatternId::Analyze,
        r"AnalyzeShallow /path/to/file.c",
    );
    assert_eq!(set.get("filepath"), Some("/path/to/file.c".to_string()));
    assert_eq!(set.get("filename"), Some("file.c".to_string()));
    let set = captures(
        PatternId::Analyze,
        r"Analyze /path/to/file.mm",
    );
    assert_eq!(set.get("filepath"), Some("/path/to/file.mm".to_string()));
    assert_eq!(set.get("filename"), Some("file.mm".to_string()));
}

#[test]
fn build_target_examples() {
    let set = captures(
        PatternId::BuildTarget,
        "=== BUILD TARGET ExampleTarget OF PROJECT ExampleProject WITH THE DEFAULT CONFIGURATION Local ===",
    );
    assert_eq!(set.get("target"), Some("ExampleTarget".to_string()));
    assert_eq!(set.get("project"), Some("ExampleProject".to_string()));
    assert_eq!(set.get("configuration"), Some("Local".to_string()));
}

#[test]
fn aggregate_target_examples() {
    let set = captures(
        PatternId::AggregateTarget,
        "=== BUILD AGGREGATE TARGET Example Target Name OF PROJECT AggregateTarget WITH CONFIGURATION Debug ===",
    );
    assert_eq!(set.get("target"), Some("Example Target Name".to_string()));
    assert_eq!(set.get("project"), Some("AggregateTarget".to_string()));
    assert_eq!(set.get("configuration"), Some("Debug".to_string()));
}

#[test]
fn analyze_target_examples() {
    let set = captures(
        PatternId::AnalyzeTarget,
        "=== ANALYZE TARGET X OF PROJECT Y WITH THE DEFAULT CONFIGURATION Z ===",
    );
    assert_eq!(set.get("target"), Some("X".to_string()));
    assert_eq!(set.get("project"), Some("Y".to_string()));
    assert_eq!(set.get("configuration"), Some("Z".to_string()));
}

#[test]
fn shell_command_examples() {
    let set = captures(
        PatternId::ShellCommand,
        "    cd /foo/bar/baz",
    );
    assert_eq!(set.get("command"), Some("cd".to_string()));
    assert_eq!(set.get("arguments"), Some("/foo/bar/baz".to_string()));
}

#[test]
fn clean_remove_examples() {
    let set = captures(
        PatternId::CleanRemove,
        "Clean.Remove clean /path/to/MyLibrary.build/Debug-iphonesimulator/MyLibraryTests.build",
    );
    assert_eq!(set.get("filepath"), Some("/path/to/MyLibrary.build/Debug-iphonesimulator/MyLibraryTests.build".to_string()));
    assert_eq!(set.get("filename"), Some("MyLibraryTests.build".to_string()));
}

#[test]
fn clean_target_examples() {
    let set = captures(
        PatternId::CleanTarget,
        "=== CLEAN TARGET X OF PROJECT Y WITH THE DEFAULT CONFIGURATION Z ===",
    );
    assert_eq!(set.get("target"), Some("X".to_string()));
    assert_eq!(set.get("project"), Some("Y".to_string()));
    assert_eq!(set.get("configuration"), Some("Z".to_string()));
}

#[test]
fn code_sign_examples() {
    let set = captures(
        PatternId::CodeSign,
        "CodeSign path/to/DemoTarget.app (in target 'DemoTarget' from project 'DemoProject')",
    );
    assert_eq!(set.get("filename"), Some("DemoTarget.app".to_string()));
    assert_eq!(set.get("target"), Some("DemoTarget".to_string()));
    assert_eq!(set.get("project"), Some("DemoProject".to_string()));
}

#[test]
fn compile_examples() {
    let set = captures(
        PatternId::Compile,
        "CompileSwift normal arm64 /path/to/ToastView.swift (in target 'Example' from project 'Example')",
    );
    assert_eq!(set.get("type"), Some("Swift".to_string()));
    assert_eq!(set.get("filepath"), Some("/path/to/ToastView.swift".to_string()));
    assert_eq!(set.get("filename"), Some("ToastView.swift".to_string()));
    assert_eq!(set.get("project"), Some("Example".to_string()));
    assert_eq!(set.get("target"), Some("Example".to_string()));
    let set = captures(
        PatternId::Compile,
        "CompileC /path/to/output/arm64/bridge.o /path/to/bridge.c normal arm64 c com.apple.compilers.llvm.clang.1_0.compiler (in target 'Example' from project 'Example')",
    );
    assert_eq!(set.get("type"), Some("C".to_string()));
    assert_eq!(set.get("filepath"), Some("/path/to/bridge.c".to_string()));
    assert_eq!(set.get("filename"), Some("bridge.c".to_string()));
    assert_eq!(set.get("project"), Some("Example".to_string()));
    assert_eq!(set.get("target"), Some("Example".to_string()));
}

#[test]
fn compile_command_examples() {
    let set = captures(
        PatternId::CompileCommand,
        "    /TOOLCHAIN_BIN/clang -target arm64-apple-macos10.10 -r -isysroot /MACOS_SDK -L/BUILD_ROOT -L/MACOS_SDK/lib -o /BUILD_ROOT/file.o",
    );
    assert_eq!(set.get("command"), Some("clang".to_string()));
    assert_eq!(set.get("arguments"), Some("-target arm64-apple-macos10.10 -r -isysroot /MACOS_SDK -L/BUILD_ROOT -L/MACOS_SDK/lib -o /BUILD_ROOT/file.o".to_string()));
    let set = captures(
        PatternId::CompileCommand,
        r"    /TOOLCHAIN_BIN/swiftc -incremental -module-name Example -Onone -enable-batch-mode -enforce-exclusivity\=checked -working-directory /PROJECT_ROOT",
    );
    assert_eq!(set.get("command"), Some("swiftc".to_string()));
    assert_eq!(set.get("arguments"), Some(r"-incremental -module-name Example -Onone -enable-batch-mode -enforce-exclusivity\=checked -working-directory /PROJECT_ROOT".to_string()));
}

#[test]
fn compile_xib_examples() {
    let set = captures(
        PatternId::CompileXIB,
        "CompileXIB /path/to/MainMenu.xib (in target 'Example' from project 'Example')",
    );
    assert_eq!(set.get("filepath"), Some("/path/to/MainMenu.xib".to_string()));
    assert_eq!(set.get("filename"), Some("MainMenu.xib".to_string()));
    assert_eq!(set.get("project"), Some("Example".to_string()));
    assert_eq!(set.get("target"), Some("Example".to_string()));
}

#[test]
fn compile_storyboard_examples() {
    let set = captures(
        PatternId::CompileStoryboard,
        "CompileStoryboard /path/to/LaunchScreen.storyboard (in target 'Example' from project 'Example')",
    );
    assert_eq!(set.get("filepath"), Some("/path/to/LaunchScreen.storyboard".to_string()));
    assert_eq!(set.get("filename"), Some("LaunchScreen.storyboard".to_string()));
    assert_eq!(set.get("project"), Some("Example".to_string()));
    assert_eq!(set.get("target"), Some("Example".to_string()));
}

#[test]
fn copy_command_examples() {
    let set = captures(
        PatternId::CopyCommand,
        "CpResource /output/EnWords.txt /path/to/EnWords.txt (in target 'Example' from project 'Example')",
    );
    assert_eq!(set.get("type"), Some("Resource".to_string()));
    assert_eq!(set.get("filepath"), Some("/path/to/EnWords.txt".to_string()));
    assert_eq!(set.get("filename"), Some("EnWords.txt".to_string()));
    assert_eq!(set.get("project"), Some("Example".to_string()));
    assert_eq!(set.get("target"), Some("Example".to_string()));
    let set = captures(
        PatternId::CopyCommand,
        "CpHeader /output/file.h /path/to/file.h (in target 'Example' from project 'Example')",
    );
    assert_eq!(set.get("type"), Some("Header".to_string()));
    assert_eq!(set.get("filepath"), Some("/path/to/file.h".to_string()));
    assert_eq!(set.get("filename"), Some("file.h".to_string()));
    assert_eq!(set.get("project"), Some("Example".to_string()));
    assert_eq!(set.get("target"), Some("Example".to_string()));
    let set = captures(
        PatternId::CopyCommand,
        "CopyStringsFile /output/InfoPlist.strings path/to/en.lproj/InfoPlist.strings (in target 'Example' from project 'Example')",
    );
    assert_eq!(set.get("type"), Some("StringsFile".to_string()));
    assert_eq!(set.get("filepath"), Some("path/to/en.lproj/InfoPlist.strings".to_string()));
    assert_eq!(set.get("filename"), Some("InfoPlist.strings".to_string()));
    assert_eq!(set.get("project"), Some("Example".to_string()));
    assert_eq!(set.get("target"), Some("Example".to_string()));
}

#[test]
fn test_executed_examples() {
    let set = captures(
        PatternId::TestExecuted,
        "     Executed 3 tests, with 1 failure (0 unexpected) in 0.258 (0.259) seconds",
    );
    assert_eq!(set.get("tests_count"), Some("3".to_string()));
    assert_eq!(set.get("failed_tests_count"), Some("1".to_string()));
    assert_eq!(set.get("unexpected_test_count"), Some("0".to_string()));
    assert_eq!(set.get("total_exec_time"), Some("0.259".to_string()));
    let set = captures(
        PatternId::TestExecuted,
        "Executed 4 tests, with 0 failures (0 unexpected) in 0.003 (0.004) seconds",
    );
    assert_eq!(set.get("tests_count"), Some("4".to_string()));
    assert_eq!(set.get("failed_tests_count"), Some("0".to_string()));
    assert_eq!(set.get("unexpected_test_count"), Some("0".to_string()));
    assert_eq!(set.get("total_exec_time"), Some("0.004".to_string()));
}

#[test]
fn test_executed_with_skipped_examples() {
    let set = captures(
        PatternId::TestExecutedWithSkipped,
        "    Executed 56 tests, with 3 test skipped and 2 failures (1 unexpected) in 1.029 (1.029) seconds",
    );
    assert_eq!(set.get("tests_count"), Some("56".to_string()));
    assert_eq!(set.get("skipped_test_count"), Some("3".to_string()));
    assert_eq!(set.get("failed_tests_count"), Some("2".to_string()));
    assert_eq!(set.get("unexpected_test_count"), Some("1".to_string()));
    assert_eq!(set.get("total_exec_time"), Some("1.029".to_string()));
    let set = captures(
        PatternId::TestExecutedWithSkipped,
        "Executed 1 test, with 1 test skipped and 1 failure (1 unexpected) in 3.000 (3.000) seconds",
    );
    assert_eq!(set.get("tests_count"), Some("1".to_string()));
    assert_eq!(set.get("skipped_test_count"), Some("1".to_string()));
    assert_eq!(set.get("failed_tests_count"), Some("1".to_string()));
    assert_eq!(set.get("unexpected_test_count"), Some("1".to_string()));
    assert_eq!(set.get("total_exec_time"), Some("3.000".to_string()));
}

#[test]
fn kiwi_failing_test_examples() {
    let set = captures(
        PatternId::KiwiFailingTest,
        "/path/to/tests.m:49: error: -[TestSuite TestCase] : 'Iterators, times： iterates the exact number of times' [FAILED], expected subject to equal 4, got 5",
    );
    assert_eq!(set.get("filepath"), Some("/path/to/tests.m:49".to_string()));
    assert_eq!(set.get("suite"), Some("TestSuite".to_string()));
    assert_eq!(set.get("case"), Some("TestCase".to_string()));
    assert_eq!(set.get("reason"), Some("expected subject to equal 4, got 5".to_string()));
}

#[test]
fn ui_failing_test_examples() {
    let set = captures(
        PatternId::UIFailingTest,
        "t =    22.27s             Assertion Failure: <unknown>:0: UI Testing Failure - Unable to find hit point for element Button 0x608001165880: {{74.0, -54.0}, {44.0, 38.0}}, label: 'Disconnect'",
    );
    assert_eq!(set.get("filepath"), Some("<unknown>:0".to_string()));
    assert_eq!(set.get("reason"), Some("UI Testing Failure - Unable to find hit point for element Button 0x608001165880: {{74.0, -54.0}, {44.0, 38.0}}, label: 'Disconnect'".to_string()));
}

#[test]
fn coverage_report_generation_examples() {
    let set = captures(
        PatternId::CoverageReportGeneration,
        "Generated coverage report: /path/to/code coverage.xccovreport",
    );
    assert_eq!(set.get("filepath"), Some("/path/to/code coverage.xccovreport".to_string()));
}

#[test]
fn generate_dsym_file_examples() {
    let set = captures(
        PatternId::GenerateDsymFile,
        "GenerateDSYMFile /$BUILD/Release/DemoTarget.app.dSYM /$BUILD/Release/DemoTarget.app/Contents/MacOS/DemoTarget (in target 'DemoTarget' from project 'DemoProject')",
    );
    assert_eq!(set.get("filename"), Some("DemoTarget.app.dSYM".to_string()));
    assert_eq!(set.get("target"), Some("DemoTarget".to_string()));
    assert_eq!(set.get("project"), Some("DemoProject".to_string()));
}

#[test]
fn linking_examples() {
    let set = captures(
        PatternId::Linking,
        "Ld /path/to/file.o normal x86_64 (in target 'Example' from project 'Example')",
    );
    assert_eq!(set.get("filepath"), Some("/path/to/file.o".to_string()));
    assert_eq!(set.get("filename"), Some("file.o".to_string()));
    assert_eq!(set.get("target"), Some("Example".to_string()));
    assert_eq!(set.get("project"), Some("Example".to_string()));
}

#[test]
fn test_suite_started_examples() {
    let set = captures(
        PatternId::TestSuiteStarted,
        "Test Suite 'ObjectiveRecordTests.xctest' started at 2013-12-10 06:15:39 +0000",
    );
    assert_eq!(set.get("name"), Some("ObjectiveRecordTests.xctest".to_string()));
    assert_eq!(set.get("time"), Some("2013-12-10 06:15:39 +0000".to_string()));
}

#[test]
fn test_suite_completed_examples() {
    let set = captures(
        PatternId::TestSuiteCompleted,
        "Test Suite 'ObjectiveRecordTests.xctest' finished at 2013-12-10 06:15:42 +0000.",
    );
    assert_eq!(set.get("name"), Some("ObjectiveRecordTests.xctest".to_string()));
    assert_eq!(set.get("time"), Some("2013-12-10 06:15:42 +0000".to_string()));
}

#[test]
fn test_case_started_examples() {
    let set = captures(
        PatternId::TestCaseStarted,
        "Test Case '-[viewUITests.vmtAboutWindow testConnectToDesktop]' started.",
    );
    assert_eq!(set.get("suite"), Some("viewUITests.vmtAboutWindow".to_string()));
    assert_eq!(set.get("case"), Some("testConnectToDesktop".to_string()));
}

#[test]
fn test_case_passed_examples() {
    let set = captures(
        PatternId::TestCasePassed,
        "Test Case '-[TestSuite TestCase]' passed (0.001 seconds).",
    );
    assert_eq!(set.get("suite"), Some("TestSuite".to_string()));
    assert_eq!(set.get("case"), Some("TestCase".to_string()));
    assert_eq!(set.get("time"), Some("0.001".to_string()));
}

#[test]
fn kiwi_test_case_pending_examples() {
    let set = captures(
        PatternId::KiwiTestCasePending,
        "Test Case '-[TestSuite TestCasePENDING]' passed (0.001 seconds).",
    );
    assert_eq!(set.get("suite"), Some("TestSuite".to_string()));
    assert_eq!(set.get("case"), Some("TestCase".to_string()));
}

#[test]
fn test_case_measure_examples() {
    let set = captures(
        PatternId::TestCaseMeasure,
        r#"<unknown>:0: Test Case '-[TestSuite TestCase]' measured [Time, seconds] average: 0.013, relative standard deviation: 26.773%, values: [0.023838, 0.012034, ], performanceMetricID:com.apple.XCTPerformanceMetric_WallClockTime, baselineName: "", baselineAverage: , maxPercentRegression: 10.000%, maxPercentRelativeStandardDeviation: 10.000%, maxRegression: 0.100, maxStandardDeviation: 0.100"#,
    );
    assert_eq!(set.get("suite"), Some("TestSuite".to_string()));
    assert_eq!(set.get("case"), Some("TestCase".to_string()));
    assert_eq!(set.get("time"), Some("0.013".to_string()));
}

#[test]
fn parallel_test_case_passed_examples() {
    let set = captures(
        PatternId::ParallelTestCasePassed,
        "Test case 'TestSuite.testCase()' passed on 'xctest (49438)' (0.131 seconds)",
    );
    assert_eq!(set.get("suite"), Some("TestSuite".to_string()));
    assert_eq!(set.get("case"), Some("testCase".to_string()));
    assert_eq!(set.get("time"), Some("0.131".to_string()));
    assert_eq!(set.get("medium"), Some("xctest (49438)".to_string()));
}

#[test]
fn parallel_test_case_app_kit_passed_examples() {
    let set = captures(
        PatternId::ParallelTestCaseAppKitPassed,
        "Test case '-[TestSuite testCase]' passed on 'xctest (49438)' (0.131 seconds).",
    );
    assert_eq!(set.get("suite"), Some("TestSuite".to_string()));
    assert_eq!(set.get("case"), Some("testCase".to_string()));
    assert_eq!(set.get("medium"), Some("xctest (49438)".to_string()));
    assert_eq!(set.get("time"), Some("0.131".to_string()));
}

#[test]
fn parallel_test_case_failed_examples() {
    let set = captures(
        PatternId::ParallelTestCaseFailed,
        "Test case 'TestSuite.testCase()' failed on 'iPhone 11' (7.158 seconds)",
    );
    assert_eq!(set.get("suite"), Some("TestSuite".to_string()));
    assert_eq!(set.get("case"), Some("testCase".to_string()));
    assert_eq!(set.get("medium"), Some("iPhone 11".to_string()));
    assert_eq!(set.get("time"), Some("7.158".to_string()));
}

#[test]
fn parallel_testing_started_examples() {
    let set = captures(
        PatternId::ParallelTestingStarted,
        "Testing started on 'iPhone X'",
    );
    assert_eq!(set.get("medium"), Some("iPhone X".to_string()));
}

#[test]
fn parallel_testing_passed_examples() {
    let set = captures(
        PatternId::ParallelTestingPassed,
        "Testing passed on 'iPhone X'",
    );
    assert_eq!(set.get("medium"), Some("iPhone X".to_string()));
}

#[test]
fn parallel_testing_failed_examples() {
    let set = captures(
        PatternId::ParallelTestingFailed,
        "Testing failed on 'iPhone X'",
    );
    assert_eq!(set.get("medium"), Some("iPhone X".to_string()));
}

#[test]
fn parallel_test_failed_examples() {
    let set = captures(
        PatternId::ParallelTestFailed,
        "Test suite 'TestSuite (iOS).xctest' started on 'iPhone X'",
    );
    assert_eq!(set.get("suite"), Some("TestSuite (iOS).xctest".to_string()));
    assert_eq!(set.get("medium"), Some("iPhone X".to_string()));
}

#[test]
fn phase_script_execution_examples() {
    let set = captures(
        PatternId::PhaseScriptExecution,
        "PhaseScriptExecution Format\\ Swift\\ Files /path/to/file.sh (in target 'DemoTarget' from project 'DemoProject')",
    );
    assert_eq!(set.get("name"), Some("Format\\ Swift\\ Files".to_string()));
    assert_eq!(set.get("target"), Some("DemoTarget".to_string()));
    assert_eq!(set.get("project"), Some("DemoProject".to_string()));
    let set = captures(
        PatternId::PhaseScriptExecution,
        "PhaseScriptExecution [CP]\\ Check\\ Pods\\ Manifest.lock /path/to/file.sh (in target 'App' from project 'App')",
    );
    assert_eq!(set.get("name"), Some("[CP]\\ Check\\ Pods\\ Manifest.lock".to_string()));
    assert_eq!(set.get("target"), Some("App".to_string()));
    assert_eq!(set.get("project"), Some("App".to_string()));
}

#[test]
fn process_pch_examples() {
    let set = captures(
        PatternId::ProcessPCH,
        "ProcessPCH /path/to/file.pch.gch /path/to/file.pch normal x86_64 objective-c com.apple.compilers.llvm.clang.1_0.analyzer (in target 'App' from project 'App')",
    );
    assert_eq!(set.get("filename"), Some("file.pch".to_string()));
    assert_eq!(set.get("target"), Some("App".to_string()));
    assert_eq!(set.get("project"), Some("App".to_string()));
}

#[test]
fn pbx_copy_examples() {
    let set = captures(
        PatternId::PbxCopy,
        "PBXCp /path/to/header.h /path/to/output.h (in target 'App' from project 'App')",
    );
    assert_eq!(set.get("target"), Some("App".to_string()));
    assert_eq!(set.get("project"), Some("App".to_string()));
    assert_eq!(set.get("filepath"), Some("/path/to/header.h".to_string()));
}

#[test]
fn process_info_plist_file_examples() {
    let set = captures(
        PatternId::ProcessInfoPlistFile,
        "ProcessInfoPlistFile /path/to/output/Info.plist /path/to/Info.plist (in target 'Example' from project 'Example')",
    );
    assert_eq!(set.get("filepath"), Some("/path/to/Info.plist".to_string()));
    assert_eq!(set.get("filename"), Some("Info.plist".to_string()));
    assert_eq!(set.get("project"), Some("Example".to_string()));
    assert_eq!(set.get("target"), Some("Example".to_string()));
}

#[test]
fn touch_examples() {
    let set = captures(
        PatternId::Touch,
        "Touch /BUILD_ROOT/Example.app (in target 'Example' from project 'Example')",
    );
    assert_eq!(set.get("filepath"), Some("/BUILD_ROOT/Example.app".to_string()));
    assert_eq!(set.get("filename"), Some("Example.app".to_string()));
    assert_eq!(set.get("project"), Some("Example".to_string()));
    assert_eq!(set.get("target"), Some("Example".to_string()));
}

#[test]
fn compile_warning_examples() {
    let set = captures(
        PatternId::CompileWarning,
        "/path/file.swift:64:69: warning: 'flatMap' is deprecated: Please use compactMap(_:) for the case where closure returns an optional value",
    );
    assert_eq!(set.get("location"), Some("/path/file.swift:64:69".to_string()));
    assert_eq!(set.get("filepath"), Some("/path/file.swift".to_string()));
    assert_eq!(set.get("message"), Some("'flatMap' is deprecated: Please use compactMap(_:) for the case where closure returns an optional value".to_string()));
}

#[test]
fn clang_error_examples() {
    let set = captures(
        PatternId::ClangError,
        "clang: error: linker command failed with exit code 1 (use -v to see invocation)",
    );
    assert_eq!(set.get("message"), Some("clang: error: linker command failed with exit code 1 (use -v to see invocation)".to_string()));
}

#[test]
fn compile_error_examples() {
    let set = captures(
        PatternId::CompileError,
        "/path/file.swift:64:69: error: cannot find 'input' in scope",
    );
    assert_eq!(set.get("location"), Some("/path/file.swift:64:69".to_string()));
    assert_eq!(set.get("filepath"), Some("/path/file.swift".to_string()));
    assert_eq!(set.get("message"), Some("cannot find 'input' in scope".to_string()));
}
