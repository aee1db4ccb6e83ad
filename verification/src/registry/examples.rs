//! What the patterns are known to capture: for each pattern, lines with the
//! text that a group holds when the pattern is matched against them. The
//! examples guard the table against a change that breaks an extraction.

use vstd::prelude::*;
use crate::registry::table::PatternId;

verus! {

/// One thing that a pattern is known to capture: matched against `line`, the
/// group `name` holds `value`.
#[derive(Clone, Copy, Debug)]
pub struct Example {
    pub line: &'static str,
    pub name: &'static str,
    pub value: &'static str,
}

impl PatternId {
    /// The examples of the pattern.
    pub open spec fn spec_examples(self) -> Seq<Example> {
        match self {
            PatternId::TargetProject => seq![
                Example {
                    line: "Validate /x/App.app (in target 'My App' from project 'Proj')",
                    name: "target",
                    value: "My App",
                },
                Example {
                    line: "Validate /x/App.app (in target 'My App' from project 'Proj')",
                    name: "project",
                    value: "Proj",
                },
            ],
            PatternId::Analyze => seq![
                Example {
                    line: r"AnalyzeShallow /path/to/file.m normal x86_64 (in target 'MyTarget' from project 'MyProject')",
                    name: "filepath",
                    value: "/path/to/file.m",
                },
                Example {
                    line: r"AnalyzeShallow /path/to/file.m normal x86_64 (in target 'MyTarget' from project 'MyProject')",
                    name: "filename",
                    value: "file.m",
                },
                Example {
                    line: r"AnalyzeShallow /path/to/file.m normal x86_64 (in target 'MyTarget' from project 'MyProject')",
                    name: "target",
                    value: "MyTarget",
                },
                Example {
                    line: r"AnalyzeShallow /path/to/file.m normal x86_64 (in target 'MyTarget' from project 'MyProject')",
                    name: "project",
                    value: "MyProject",
                },
                Example {
                    line: r"AnalyzeShallow /path/to/file.c",
                    name: "filepath",
                    value: "/path/to/file.c",
                },
                Example {
                    line: r"AnalyzeShallow /path/to/file.c",
                    name: "filename",
                    value: "file.c",
                },
                Example {
                    line: r"Analyze /path/to/file.mm",
                    name: "filepath",
                    value: "/path/to/file.mm",
                },
                Example {
                    line: r"Analyze /path/to/file.mm",
                    name: "filename",
                    value: "file.mm",
                },
            ],
            PatternId::BuildTarget => seq![
                Example {
                    line: "=== BUILD TARGET ExampleTarget OF PROJECT ExampleProject WITH THE DEFAULT CONFIGURATION Local ===",
                    name: "target",
                    value: "ExampleTarget",
                },
                Example {
                    line: "=== BUILD TARGET ExampleTarget OF PROJECT ExampleProject WITH THE DEFAULT CONFIGURATION Local ===",
                    name: "project",
                    value: "ExampleProject",
                },
                Example {
                    line: "=== BUILD TARGET ExampleTarget OF PROJECT ExampleProject WITH THE DEFAULT CONFIGURATION Local ===",
                    name: "configuration",
                    value: "Local",
                },
            ],
            PatternId::AggregateTarget => seq![
                Example {
                    line: "=== BUILD AGGREGATE TARGET Example Target Name OF PROJECT AggregateTarget WITH CONFIGURATION Debug ===",
                    name: "target",
                    value: "Example Target Name",
                },
                Example {
                    line: "=== BUILD AGGREGATE TARGET Example Target Name OF PROJECT AggregateTarget WITH CONFIGURATION Debug ===",
                    name: "project",
                    value: "AggregateTarget",
                },
                Example {
                    line: "=== BUILD AGGREGATE TARGET Example Target Name OF PROJECT AggregateTarget WITH CONFIGURATION Debug ===",
                    name: "configuration",
                    value: "Debug",
                },
            ],
            PatternId::AnalyzeTarget => seq![
                Example {
                    line: "=== ANALYZE TARGET X OF PROJECT Y WITH THE DEFAULT CONFIGURATION Z ===",
                    name: "target",
                    value: "X",
                },
                Example {
                    line: "=== ANALYZE TARGET X OF PROJECT Y WITH THE DEFAULT CONFIGURATION Z ===",
                    name: "project",
                    value: "Y",
                },
                Example {
                    line: "=== ANALYZE TARGET X OF PROJECT Y WITH THE DEFAULT CONFIGURATION Z ===",
                    name: "configuration",
                    value: "Z",
                },
            ],
            PatternId::ShellCommand => seq![
                Example {
                    line: "    cd /foo/bar/baz",
                    name: "command",
                    value: "cd",
                },
                Example {
                    line: "    cd /foo/bar/baz",
                    name: "arguments",
                    value: "/foo/bar/baz",
                },
            ],
            PatternId::CleanRemove => seq![
                Example {
                    line: "Clean.Remove clean /path/to/MyLibrary.build/Debug-iphonesimulator/MyLibraryTests.build",
                    name: "filepath",
                    value: "/path/to/MyLibrary.build/Debug-iphonesimulator/MyLibraryTests.build",
                },
                Example {
                    line: "Clean.Remove clean /path/to/MyLibrary.build/Debug-iphonesimulator/MyLibraryTests.build",
                    name: "filename",
                    value: "MyLibraryTests.build",
                },
            ],
            PatternId::CleanTarget => seq![
                Example {
                    line: "=== CLEAN TARGET X OF PROJECT Y WITH THE DEFAULT CONFIGURATION Z ===",
                    name: "target",
                    value: "X",
                },
                Example {
                    line: "=== CLEAN TARGET X OF PROJECT Y WITH THE DEFAULT CONFIGURATION Z ===",
                    name: "project",
                    value: "Y",
                },
                Example {
                    line: "=== CLEAN TARGET X OF PROJECT Y WITH THE DEFAULT CONFIGURATION Z ===",
                    name: "configuration",
                    value: "Z",
                },
            ],
            PatternId::CodeSign => seq![
                Example {
                    line: "CodeSign path/to/DemoTarget.app (in target 'DemoTarget' from project 'DemoProject')",
                    name: "filename",
                    value: "DemoTarget.app",
                },
                Example {
                    line: "CodeSign path/to/DemoTarget.app (in target 'DemoTarget' from project 'DemoProject')",
                    name: "target",
                    value: "DemoTarget",
                },
                Example {
                    line: "CodeSign path/to/DemoTarget.app (in target 'DemoTarget' from project 'DemoProject')",
                    name: "project",
                    value: "DemoProject",
                },
            ],
            PatternId::Compile => seq![
                Example {
                    line: "CompileSwift normal arm64 /path/to/ToastView.swift (in target 'Example' from project 'Example')",
                    name: "type",
                    value: "Swift",
                },
                Example {
                    line: "CompileSwift normal arm64 /path/to/ToastView.swift (in target 'Example' from project 'Example')",
                    name: "filepath",
                    value: "/path/to/ToastView.swift",
                },
                Example {
                    line: "CompileSwift normal arm64 /path/to/ToastView.swift (in target 'Example' from project 'Example')",
                    name: "filename",
                    value: "ToastView.swift",
                },
                Example {
                    line: "CompileSwift normal arm64 /path/to/ToastView.swift (in target 'Example' from project 'Example')",
                    name: "project",
                    value: "Example",
                },
                Example {
                    line: "CompileSwift normal arm64 /path/to/ToastView.swift (in target 'Example' from project 'Example')",
                    name: "target",
                    value: "Example",
                },
                Example {
                    line: "CompileC /path/to/output/arm64/bridge.o /path/to/bridge.c normal arm64 c com.apple.compilers.llvm.clang.1_0.compiler (in target 'Example' from project 'Example')",
                    name: "type",
                    value: "C",
                },
                Example {
                    line: "CompileC /path/to/output/arm64/bridge.o /path/to/bridge.c normal arm64 c com.apple.compilers.llvm.clang.1_0.compiler (in target 'Example' from project 'Example')",
                    name: "filepath",
                    value: "/path/to/bridge.c",
                },
                Example {
                    line: "CompileC /path/to/output/arm64/bridge.o /path/to/bridge.c normal arm64 c com.apple.compilers.llvm.clang.1_0.compiler (in target 'Example' from project 'Example')",
                    name: "filename",
                    value: "bridge.c",
                },
                Example {
                    line: "CompileC /path/to/output/arm64/bridge.o /path/to/bridge.c normal arm64 c com.apple.compilers.llvm.clang.1_0.compiler (in target 'Example' from project 'Example')",
                    name: "project",
                    value: "Example",
                },
                Example {
                    line: "CompileC /path/to/output/arm64/bridge.o /path/to/bridge.c normal arm64 c com.apple.compilers.llvm.clang.1_0.compiler (in target 'Example' from project 'Example')",
                    name: "target",
                    value: "Example",
                },
            ],
            PatternId::CompileCommand => seq![
                Example {
                    line: "    /TOOLCHAIN_BIN/clang -target arm64-apple-macos10.10 -r -isysroot /MACOS_SDK -L/BUILD_ROOT -L/MACOS_SDK/lib -o /BUILD_ROOT/file.o",
                    name: "command",
                    value: "clang",
                },
                Example {
                    line: "    /TOOLCHAIN_BIN/clang -target arm64-apple-macos10.10 -r -isysroot /MACOS_SDK -L/BUILD_ROOT -L/MACOS_SDK/lib -o /BUILD_ROOT/file.o",
                    name: "arguments",
                    value: "-target arm64-apple-macos10.10 -r -isysroot /MACOS_SDK -L/BUILD_ROOT -L/MACOS_SDK/lib -o /BUILD_ROOT/file.o",
                },
                Example {
                    line: r"    /TOOLCHAIN_BIN/swiftc -incremental -module-name Example -Onone -enable-batch-mode -enforce-exclusivity\=checked -working-directory /PROJECT_ROOT",
                    name: "command",
                    value: "swiftc",
                },
                Example {
                    line: r"    /TOOLCHAIN_BIN/swiftc -incremental -module-name Example -Onone -enable-batch-mode -enforce-exclusivity\=checked -working-directory /PROJECT_ROOT",
                    name: "arguments",
                    value: r"-incremental -module-name Example -Onone -enable-batch-mode -enforce-exclusivity\=checked -working-directory /PROJECT_ROOT",
                },
            ],
            PatternId::CompileXIB => seq![
                Example {
                    line: "CompileXIB /path/to/MainMenu.xib (in target 'Example' from project 'Example')",
                    name: "filepath",
                    value: "/path/to/MainMenu.xib",
                },
                Example {
                    line: "CompileXIB /path/to/MainMenu.xib (in target 'Example' from project 'Example')",
                    name: "filename",
                    value: "MainMenu.xib",
                },
                Example {
                    line: "CompileXIB /path/to/MainMenu.xib (in target 'Example' from project 'Example')",
                    name: "project",
                    value: "Example",
                },
                Example {
                    line: "CompileXIB /path/to/MainMenu.xib (in target 'Example' from project 'Example')",
                    name: "target",
                    value: "Example",
                },
            ],
            PatternId::CompileStoryboard => seq![
                Example {
                    line: "CompileStoryboard /path/to/LaunchScreen.storyboard (in target 'Example' from project 'Example')",
                    name: "filepath",
                    value: "/path/to/LaunchScreen.storyboard",
                },
                Example {
                    line: "CompileStoryboard /path/to/LaunchScreen.storyboard (in target 'Example' from project 'Example')",
                    name: "filename",
                    value: "LaunchScreen.storyboard",
                },
                Example {
                    line: "CompileStoryboard /path/to/LaunchScreen.storyboard (in target 'Example' from project 'Example')",
                    name: "project",
                    value: "Example",
                },
                Example {
                    line: "CompileStoryboard /path/to/LaunchScreen.storyboard (in target 'Example' from project 'Example')",
                    name: "target",
                    value: "Example",
                },
            ],
            PatternId::CopyCommand => seq![
                Example {
                    line: "CpResource /output/EnWords.txt /path/to/EnWords.txt (in target 'Example' from project 'Example')",
                    name: "type",
                    value: "Resource",
                },
                Example {
                    line: "CpResource /output/EnWords.txt /path/to/EnWords.txt (in target 'Example' from project 'Example')",
                    name: "filepath",
                    value: "/path/to/EnWords.txt",
                },
                Example {
                    line: "CpResource /output/EnWords.txt /path/to/EnWords.txt (in target 'Example' from project 'Example')",
                    name: "filename",
                    value: "EnWords.txt",
                },
                Example {
                    line: "CpResource /output/EnWords.txt /path/to/EnWords.txt (in target 'Example' from project 'Example')",
                    name: "project",
                    value: "Example",
                },
                Example {
                    line: "CpResource /output/EnWords.txt /path/to/EnWords.txt (in target 'Example' from project 'Example')",
                    name: "target",
                    value: "Example",
                },
                Example {
                    line: "CpHeader /output/file.h /path/to/file.h (in target 'Example' from project 'Example')",
                    name: "type",
                    value: "Header",
                },
                Example {
                    line: "CpHeader /output/file.h /path/to/file.h (in target 'Example' from project 'Example')",
                    name: "filepath",
                    value: "/path/to/file.h",
                },
                Example {
                    line: "CpHeader /output/file.h /path/to/file.h (in target 'Example' from project 'Example')",
                    name: "filename",
                    value: "file.h",
                },
                Example {
                    line: "CpHeader /output/file.h /path/to/file.h (in target 'Example' from project 'Example')",
                    name: "project",
                    value: "Example",
                },
                Example {
                    line: "CpHeader /output/file.h /path/to/file.h (in target 'Example' from project 'Example')",
                    name: "target",
                    value: "Example",
                },
                Example {
                    line: "CopyStringsFile /output/InfoPlist.strings path/to/en.lproj/InfoPlist.strings (in target 'Example' from project 'Example')",
                    name: "type",
                    value: "StringsFile",
                },
                Example {
                    line: "CopyStringsFile /output/InfoPlist.strings path/to/en.lproj/InfoPlist.strings (in target 'Example' from project 'Example')",
                    name: "filepath",
                    value: "path/to/en.lproj/InfoPlist.strings",
                },
                Example {
                    line: "CopyStringsFile /output/InfoPlist.strings path/to/en.lproj/InfoPlist.strings (in target 'Example' from project 'Example')",
                    name: "filename",
                    value: "InfoPlist.strings",
                },
                Example {
                    line: "CopyStringsFile /output/InfoPlist.strings path/to/en.lproj/InfoPlist.strings (in target 'Example' from project 'Example')",
                    name: "project",
                    value: "Example",
                },
                Example {
                    line: "CopyStringsFile /output/InfoPlist.strings path/to/en.lproj/InfoPlist.strings (in target 'Example' from project 'Example')",
                    name: "target",
                    value: "Example",
                },
            ],
            PatternId::TestExecuted => seq![
                Example {
                    line: "     Executed 3 tests, with 1 failure (0 unexpected) in 0.258 (0.259) seconds",
                    name: "tests_count",
                    value: "3",
                },
                Example {
                    line: "     Executed 3 tests, with 1 failure (0 unexpected) in 0.258 (0.259) seconds",
                    name: "failed_tests_count",
                    value: "1",
                },
                Example {
                    line: "     Executed 3 tests, with 1 failure (0 unexpected) in 0.258 (0.259) seconds",
                    name: "unexpected_test_count",
                    value: "0",
                },
                Example {
                    line: "     Executed 3 tests, with 1 failure (0 unexpected) in 0.258 (0.259) seconds",
                    name: "total_exec_time",
                    value: "0.259",
                },
                Example {
                    line: "Executed 4 tests, with 0 failures (0 unexpected) in 0.003 (0.004) seconds",
                    name: "tests_count",
                    value: "4",
                },
                Example {
                    line: "Executed 4 tests, with 0 failures (0 unexpected) in 0.003 (0.004) seconds",
                    name: "failed_tests_count",
                    value: "0",
                },
                Example {
                    line: "Executed 4 tests, with 0 failures (0 unexpected) in 0.003 (0.004) seconds",
                    name: "unexpected_test_count",
                    value: "0",
                },
                Example {
                    line: "Executed 4 tests, with 0 failures (0 unexpected) in 0.003 (0.004) seconds",
                    name: "total_exec_time",
                    value: "0.004",
                },
            ],
            PatternId::TestExecutedWithSkipped => seq![
                Example {
                    line: "    Executed 56 tests, with 3 test skipped and 2 failures (1 unexpected) in 1.029 (1.029) seconds",
                    name: "tests_count",
                    value: "56",
                },
                Example {
                    line: "    Executed 56 tests, with 3 test skipped and 2 failures (1 unexpected) in 1.029 (1.029) seconds",
                    name: "skipped_test_count",
                    value: "3",
                },
                Example {
                    line: "    Executed 56 tests, with 3 test skipped and 2 failures (1 unexpected) in 1.029 (1.029) seconds",
                    name: "failed_tests_count",
                    value: "2",
                },
                Example {
                    line: "    Executed 56 tests, with 3 test skipped and 2 failures (1 unexpected) in 1.029 (1.029) seconds",
                    name: "unexpected_test_count",
                    value: "1",
                },
                Example {
                    line: "    Executed 56 tests, with 3 test skipped and 2 failures (1 unexpected) in 1.029 (1.029) seconds",
                    name: "total_exec_time",
                    value: "1.029",
                },
                Example {
                    line: "Executed 1 test, with 1 test skipped and 1 failure (1 unexpected) in 3.000 (3.000) seconds",
                    name: "tests_count",
                    value: "1",
                },
                Example {
                    line: "Executed 1 test, with 1 test skipped and 1 failure (1 unexpected) in 3.000 (3.000) seconds",
                    name: "skipped_test_count",
                    value: "1",
                },
                Example {
                    line: "Executed 1 test, with 1 test skipped and 1 failure (1 unexpected) in 3.000 (3.000) seconds",
                    name: "failed_tests_count",
                    value: "1",
                },
                Example {
                    line: "Executed 1 test, with 1 test skipped and 1 failure (1 unexpected) in 3.000 (3.000) seconds",
                    name: "unexpected_test_count",
                    value: "1",
                },
                Example {
                    line: "Executed 1 test, with 1 test skipped and 1 failure (1 unexpected) in 3.000 (3.000) seconds",
                    name: "total_exec_time",
                    value: "3.000",
                },
            ],
            PatternId::KiwiFailingTest => seq![
                Example {
                    line: "/path/to/tests.m:49: error: -[TestSuite TestCase] : 'Iterators, times： iterates the exact number of times' [FAILED], expected subject to equal 4, got 5",
                    name: "filepath",
                    value: "/path/to/tests.m:49",
                },
                Example {
                    line: "/path/to/tests.m:49: error: -[TestSuite TestCase] : 'Iterators, times： iterates the exact number of times' [FAILED], expected subject to equal 4, got 5",
                    name: "suite",
                    value: "TestSuite",
                },
                Example {
                    line: "/path/to/tests.m:49: error: -[TestSuite TestCase] : 'Iterators, times： iterates the exact number of times' [FAILED], expected subject to equal 4, got 5",
                    name: "case",
                    value: "TestCase",
                },
                Example {
                    line: "/path/to/tests.m:49: error: -[TestSuite TestCase] : 'Iterators, times： iterates the exact number of times' [FAILED], expected subject to equal 4, got 5",
                    name: "reason",
                    value: "expected subject to equal 4, got 5",
                },
            ],
            PatternId::UIFailingTest => seq![
                Example {
                    line: "t =    22.27s             Assertion Failure: <unknown>:0: UI Testing Failure - Unable to find hit point for element Button 0x608001165880: {{74.0, -54.0}, {44.0, 38.0}}, label: 'Disconnect'",
                    name: "filepath",
                    value: "<unknown>:0",
                },
                Example {
                    line: "t =    22.27s             Assertion Failure: <unknown>:0: UI Testing Failure - Unable to find hit point for element Button 0x608001165880: {{74.0, -54.0}, {44.0, 38.0}}, label: 'Disconnect'",
                    name: "reason",
                    value: "UI Testing Failure - Unable to find hit point for element Button 0x608001165880: {{74.0, -54.0}, {44.0, 38.0}}, label: 'Disconnect'",
                },
            ],
            PatternId::CoverageReportGeneration => seq![
                Example {
                    line: "Generated coverage report: /path/to/code coverage.xccovreport",
                    name: "filepath",
                    value: "/path/to/code coverage.xccovreport",
                },
            ],
            PatternId::GenerateDsymFile => seq![
                Example {
                    line: "GenerateDSYMFile /$BUILD/Release/DemoTarget.app.dSYM /$BUILD/Release/DemoTarget.app/Contents/MacOS/DemoTarget (in target 'DemoTarget' from project 'DemoProject')",
                    name: "filename",
                    value: "DemoTarget.app.dSYM",
                },
                Example {
                    line: "GenerateDSYMFile /$BUILD/Release/DemoTarget.app.dSYM /$BUILD/Release/DemoTarget.app/Contents/MacOS/DemoTarget (in target 'DemoTarget' from project 'DemoProject')",
                    name: "target",
                    value: "DemoTarget",
                },
                Example {
                    line: "GenerateDSYMFile /$BUILD/Release/DemoTarget.app.dSYM /$BUILD/Release/DemoTarget.app/Contents/MacOS/DemoTarget (in target 'DemoTarget' from project 'DemoProject')",
                    name: "project",
                    value: "DemoProject",
                },
            ],
            PatternId::Linking => seq![
                Example {
                    line: "Ld /path/to/file.o normal x86_64 (in target 'Example' from project 'Example')",
                    name: "filepath",
                    value: "/path/to/file.o",
                },
                Example {
                    line: "Ld /path/to/file.o normal x86_64 (in target 'Example' from project 'Example')",
                    name: "filename",
                    value: "file.o",
                },
                Example {
                    line: "Ld /path/to/file.o normal x86_64 (in target 'Example' from project 'Example')",
                    name: "target",
                    value: "Example",
                },
                Example {
                    line: "Ld /path/to/file.o normal x86_64 (in target 'Example' from project 'Example')",
                    name: "project",
                    value: "Example",
                },
            ],
            PatternId::TestSuiteStarted => seq![
                Example {
                    line: "Test Suite 'ObjectiveRecordTests.xctest' started at 2013-12-10 06:15:39 +0000",
                    name: "name",
                    value: "ObjectiveRecordTests.xctest",
                },
                Example {
                    line: "Test Suite 'ObjectiveRecordTests.xctest' started at 2013-12-10 06:15:39 +0000",
                    name: "time",
                    value: "2013-12-10 06:15:39 +0000",
                },
            ],
            PatternId::TestSuiteCompleted => seq![
                Example {
                    line: "Test Suite 'ObjectiveRecordTests.xctest' finished at 2013-12-10 06:15:42 +0000.",
                    name: "name",
                    value: "ObjectiveRecordTests.xctest",
                },
                Example {
                    line: "Test Suite 'ObjectiveRecordTests.xctest' finished at 2013-12-10 06:15:42 +0000.",
                    name: "time",
                    value: "2013-12-10 06:15:42 +0000",
                },
            ],
            PatternId::TestCaseStarted => seq![
                Example {
                    line: "Test Case '-[viewUITests.vmtAboutWindow testConnectToDesktop]' started.",
                    name: "suite",
                    value: "viewUITests.vmtAboutWindow",
                },
                Example {
                    line: "Test Case '-[viewUITests.vmtAboutWindow testConnectToDesktop]' started.",
                    name: "case",
                    value: "testConnectToDesktop",
                },
            ],
            PatternId::TestCasePassed => seq![
                Example {
                    line: "Test Case '-[TestSuite TestCase]' passed (0.001 seconds).",
                    name: "suite",
                    value: "TestSuite",
                },
                Example {
                    line: "Test Case '-[TestSuite TestCase]' passed (0.001 seconds).",
                    name: "case",
                    value: "TestCase",
                },
                Example {
                    line: "Test Case '-[TestSuite TestCase]' passed (0.001 seconds).",
                    name: "time",
                    value: "0.001",
                },
            ],
            PatternId::KiwiTestCasePending => seq![
                Example {
                    line: "Test Case '-[TestSuite TestCasePENDING]' passed (0.001 seconds).",
                    name: "suite",
                    value: "TestSuite",
                },
                Example {
                    line: "Test Case '-[TestSuite TestCasePENDING]' passed (0.001 seconds).",
                    name: "case",
                    value: "TestCase",
                },
            ],
            PatternId::TestCaseMeasure => seq![
                Example {
                    line: r#"<unknown>:0: Test Case '-[TestSuite TestCase]' measured [Time, seconds] average: 0.013, relative standard deviation: 26.773%, values: [0.023838, 0.012034, ], performanceMetricID:com.apple.XCTPerformanceMetric_WallClockTime, baselineName: "", baselineAverage: , maxPercentRegression: 10.000%, maxPercentRelativeStandardDeviation: 10.000%, maxRegression: 0.100, maxStandardDeviation: 0.100"#,
                    name: "suite",
                    value: "TestSuite",
                },
                Example {
                    line: r#"<unknown>:0: Test Case '-[TestSuite TestCase]' measured [Time, seconds] average: 0.013, relative standard deviation: 26.773%, values: [0.023838, 0.012034, ], performanceMetricID:com.apple.XCTPerformanceMetric_WallClockTime, baselineName: "", baselineAverage: , maxPercentRegression: 10.000%, maxPercentRelativeStandardDeviation: 10.000%, maxRegression: 0.100, maxStandardDeviation: 0.100"#,
                    name: "case",
                    value: "TestCase",
                },
                Example {
                    line: r#"<unknown>:0: Test Case '-[TestSuite TestCase]' measured [Time, seconds] average: 0.013, relative standard deviation: 26.773%, values: [0.023838, 0.012034, ], performanceMetricID:com.apple.XCTPerformanceMetric_WallClockTime, baselineName: "", baselineAverage: , maxPercentRegression: 10.000%, maxPercentRelativeStandardDeviation: 10.000%, maxRegression: 0.100, maxStandardDeviation: 0.100"#,
                    name: "time",
                    value: "0.013",
                },
            ],
            PatternId::ParallelTestCasePassed => seq![
                Example {
                    line: "Test case 'TestSuite.testCase()' passed on 'xctest (49438)' (0.131 seconds)",
                    name: "suite",
                    value: "TestSuite",
                },
                Example {
                    line: "Test case 'TestSuite.testCase()' passed on 'xctest (49438)' (0.131 seconds)",
                    name: "case",
                    value: "testCase",
                },
                Example {
                    line: "Test case 'TestSuite.testCase()' passed on 'xctest (49438)' (0.131 seconds)",
                    name: "time",
                    value: "0.131",
                },
                Example {
                    line: "Test case 'TestSuite.testCase()' passed on 'xctest (49438)' (0.131 seconds)",
                    name: "medium",
                    value: "xctest (49438)",
                },
            ],
            PatternId::ParallelTestCaseAppKitPassed => seq![
                Example {
                    line: "Test case '-[TestSuite testCase]' passed on 'xctest (49438)' (0.131 seconds).",
                    name: "suite",
                    value: "TestSuite",
                },
                Example {
                    line: "Test case '-[TestSuite testCase]' passed on 'xctest (49438)' (0.131 seconds).",
                    name: "case",
                    value: "testCase",
                },
                Example {
                    line: "Test case '-[TestSuite testCase]' passed on 'xctest (49438)' (0.131 seconds).",
                    name: "medium",
                    value: "xctest (49438)",
                },
                Example {
                    line: "Test case '-[TestSuite testCase]' passed on 'xctest (49438)' (0.131 seconds).",
                    name: "time",
                    value: "0.131",
                },
            ],
            PatternId::ParallelTestCaseFailed => seq![
                Example {
                    line: "Test case 'TestSuite.testCase()' failed on 'iPhone 11' (7.158 seconds)",
                    name: "suite",
                    value: "TestSuite",
                },
                Example {
                    line: "Test case 'TestSuite.testCase()' failed on 'iPhone 11' (7.158 seconds)",
                    name: "case",
                    value: "testCase",
                },
                Example {
                    line: "Test case 'TestSuite.testCase()' failed on 'iPhone 11' (7.158 seconds)",
                    name: "medium",
                    value: "iPhone 11",
                },
                Example {
                    line: "Test case 'TestSuite.testCase()' failed on 'iPhone 11' (7.158 seconds)",
                    name: "time",
                    value: "7.158",
                },
            ],
            PatternId::ParallelTestingStarted => seq![
                Example {
                    line: "Testing started on 'iPhone X'",
                    name: "medium",
                    value: "iPhone X",
                },
            ],
            PatternId::ParallelTestingPassed => seq![
                Example {
                    line: "Testing passed on 'iPhone X'",
                    name: "medium",
                    value: "iPhone X",
                },
            ],
            PatternId::ParallelTestingFailed => seq![
                Example {
                    line: "Testing failed on 'iPhone X'",
                    name: "medium",
                    value: "iPhone X",
                },
            ],
            PatternId::ParallelTestFailed => seq![
                Example {
                    line: "Test suite 'TestSuite (iOS).xctest' started on 'iPhone X'",
                    name: "suite",
                    value: "TestSuite (iOS).xctest",
                },
                Example {
                    line: "Test suite 'TestSuite (iOS).xctest' started on 'iPhone X'",
                    name: "medium",
                    value: "iPhone X",
                },
            ],
            PatternId::PhaseScriptExecution => seq![
                Example {
                    line: "PhaseScriptExecution Format\\ Swift\\ Files /path/to/file.sh (in target 'DemoTarget' from project 'DemoProject')",
                    name: "name",
                    value: "Format\\ Swift\\ Files",
                },
                Example {
                    line: "PhaseScriptExecution Format\\ Swift\\ Files /path/to/file.sh (in target 'DemoTarget' from project 'DemoProject')",
                    name: "target",
                    value: "DemoTarget",
                },
                Example {
                    line: "PhaseScriptExecution Format\\ Swift\\ Files /path/to/file.sh (in target 'DemoTarget' from project 'DemoProject')",
                    name: "project",
                    value: "DemoProject",
                },
                Example {
                    line: "PhaseScriptExecution [CP]\\ Check\\ Pods\\ Manifest.lock /path/to/file.sh (in target 'App' from project 'App')",
                    name: "name",
                    value: "[CP]\\ Check\\ Pods\\ Manifest.lock",
                },
                Example {
                    line: "PhaseScriptExecution [CP]\\ Check\\ Pods\\ Manifest.lock /path/to/file.sh (in target 'App' from project 'App')",
                    name: "target",
                    value: "App",
                },
                Example {
                    line: "PhaseScriptExecution [CP]\\ Check\\ Pods\\ Manifest.lock /path/to/file.sh (in target 'App' from project 'App')",
                    name: "project",
                    value: "App",
                },
            ],
            PatternId::ProcessPCH => seq![
                Example {
                    line: "ProcessPCH /path/to/file.pch.gch /path/to/file.pch normal x86_64 objective-c com.apple.compilers.llvm.clang.1_0.analyzer (in target 'App' from project 'App')",
                    name: "filename",
                    value: "file.pch",
                },
                Example {
                    line: "ProcessPCH /path/to/file.pch.gch /path/to/file.pch normal x86_64 objective-c com.apple.compilers.llvm.clang.1_0.analyzer (in target 'App' from project 'App')",
                    name: "target",
                    value: "App",
                },
                Example {
                    line: "ProcessPCH /path/to/file.pch.gch /path/to/file.pch normal x86_64 objective-c com.apple.compilers.llvm.clang.1_0.analyzer (in target 'App' from project 'App')",
                    name: "project",
                    value: "App",
                },
            ],
            PatternId::PbxCopy => seq![
                Example {
                    line: "PBXCp /path/to/header.h /path/to/output.h (in target 'App' from project 'App')",
                    name: "target",
                    value: "App",
                },
                Example {
                    line: "PBXCp /path/to/header.h /path/to/output.h (in target 'App' from project 'App')",
                    name: "project",
                    value: "App",
                },
                Example {
                    line: "PBXCp /path/to/header.h /path/to/output.h (in target 'App' from project 'App')",
                    name: "filepath",
                    value: "/path/to/header.h",
                },
            ],
            PatternId::ProcessInfoPlistFile => seq![
                Example {
                    line: "ProcessInfoPlistFile /path/to/output/Info.plist /path/to/Info.plist (in target 'Example' from project 'Example')",
                    name: "filepath",
                    value: "/path/to/Info.plist",
                },
                Example {
                    line: "ProcessInfoPlistFile /path/to/output/Info.plist /path/to/Info.plist (in target 'Example' from project 'Example')",
                    name: "filename",
                    value: "Info.plist",
                },
                Example {
                    line: "ProcessInfoPlistFile /path/to/output/Info.plist /path/to/Info.plist (in target 'Example' from project 'Example')",
                    name: "project",
                    value: "Example",
                },
                Example {
                    line: "ProcessInfoPlistFile /path/to/output/Info.plist /path/to/Info.plist (in target 'Example' from project 'Example')",
                    name: "target",
                    value: "Example",
                },
            ],
            PatternId::Touch => seq![
                Example {
                    line: "Touch /BUILD_ROOT/Example.app (in target 'Example' from project 'Example')",
                    name: "filepath",
                    value: "/BUILD_ROOT/Example.app",
                },
                Example {
                    line: "Touch /BUILD_ROOT/Example.app (in target 'Example' from project 'Example')",
                    name: "filename",
                    value: "Example.app",
                },
                Example {
                    line: "Touch /BUILD_ROOT/Example.app (in target 'Example' from project 'Example')",
                    name: "project",
                    value: "Example",
                },
                Example {
                    line: "Touch /BUILD_ROOT/Example.app (in target 'Example' from project 'Example')",
                    name: "target",
                    value: "Example",
                },
            ],
            PatternId::CompileWarning => seq![
                Example {
                    line: "/path/file.swift:64:69: warning: 'flatMap' is deprecated: Please use compactMap(_:) for the case where closure returns an optional value",
                    name: "location",
                    value: "/path/file.swift:64:69",
                },
                Example {
                    line: "/path/file.swift:64:69: warning: 'flatMap' is deprecated: Please use compactMap(_:) for the case where closure returns an optional value",
                    name: "filepath",
                    value: "/path/file.swift",
                },
                Example {
                    line: "/path/file.swift:64:69: warning: 'flatMap' is deprecated: Please use compactMap(_:) for the case where closure returns an optional value",
                    name: "message",
                    value: "'flatMap' is deprecated: Please use compactMap(_:) for the case where closure returns an optional value",
                },
            ],
            PatternId::LdWarning => seq![
                Example {
                    line: "ld: warning: directory not found",
                    name: "prefix",
                    value: "ld: ",
                },
                Example {
                    line: "ld: warning: directory not found",
                    name: "message",
                    value: "directory not found",
                },
            ],
            PatternId::GenericWarning => seq![
                Example {
                    line: "warning: something",
                    name: "message",
                    value: "something",
                },
            ],
            PatternId::CodeSignWarning => seq![
                Example {
                    line: "App will not be code signed because it is a test",
                    name: "message",
                    value: "App will not be code signed because it is a test",
                },
            ],
            PatternId::ClangError => seq![
                Example {
                    line: "clang: error: linker command failed with exit code 1 (use -v to see invocation)",
                    name: "message",
                    value: "clang: error: linker command failed with exit code 1 (use -v to see invocation)",
                },
            ],
            PatternId::CheckDependenciesError => seq![
                Example {
                    line: "Code Sign error: No code signing identities found",
                    name: "message",
                    value: "Code Sign error: No code signing identities found",
                },
            ],
            PatternId::ProvisioningProfileRequiredError => seq![
                Example {
                    line: "App requires a provisioning profile.",
                    name: "message",
                    value: "App requires a provisioning profile.",
                },
            ],
            PatternId::NoCertificateError => seq![
                Example {
                    line: "No certificate matching 'iPhone Distribution' for team",
                    name: "message",
                    value: "No certificate matching 'iPhone Distribution' for team",
                },
            ],
            PatternId::CompileError => seq![
                Example {
                    line: "/path/file.swift:64:69: error: cannot find 'input' in scope",
                    name: "location",
                    value: "/path/file.swift:64:69",
                },
                Example {
                    line: "/path/file.swift:64:69: error: cannot find 'input' in scope",
                    name: "filepath",
                    value: "/path/file.swift",
                },
                Example {
                    line: "/path/file.swift:64:69: error: cannot find 'input' in scope",
                    name: "message",
                    value: "cannot find 'input' in scope",
                },
            ],
            PatternId::Cursor => seq![
                Example {
                    line: "    ~~~^~~",
                    name: "content",
                    value: "    ~~~^~~",
                },
            ],
            PatternId::FatalError => seq![
                Example {
                    line: "fatal error: 'x.h' file not found",
                    name: "message",
                    value: "fatal error: 'x.h' file not found",
                },
            ],
            PatternId::FileMissingError => seq![
                Example {
                    line: "<unknown>:0: error: no such file or directory: '/path/to/file.swift'",
                    name: "message",
                    value: "error: no such file or directory:",
                },
                Example {
                    line: "<unknown>:0: error: no such file or directory: '/path/to/file.swift'",
                    name: "filepath",
                    value: "/path/to/file.swift",
                },
            ],
            PatternId::LdError => seq![
                Example {
                    line: "ld: library not found for -lPods",
                    name: "message",
                    value: "ld: library not found for -lPods",
                },
            ],
            PatternId::LinkerDuplicateSymbolsLocationError => seq![
                Example {
                    line: "    /path/to/file.o",
                    name: "message",
                    value: "/path/to/file.o",
                },
            ],
            PatternId::LinkerDuplicateSymbolsError => seq![
                Example {
                    line: "duplicate symbol _OBJC_IVAR_$ClassName._ivarName in:",
                    name: "message",
                    value: "duplicate symbol _OBJC_IVAR_$ClassName._ivarName in",
                },
            ],
            PatternId::LinkerUndefinedSymbolsLocationError => seq![
                Example {
                    line: "      objc-class-ref in MyClass.o",
                    name: "message",
                    value: "      objc-class-ref in MyClass.o",
                },
            ],
            PatternId::PodsError => seq![
                Example {
                    line: "error: The sandbox is not in sync",
                    name: "message",
                    value: "error: The sandbox is not in sync",
                },
            ],
            PatternId::SymbolReferencedFrom => seq![
                Example {
                    line: r#"  "_OBJC_CLASS_$_Foo", referenced from:"#,
                    name: "message",
                    value: "_OBJC_CLASS_$_Foo",
                },
            ],
            PatternId::ModuleIncludesError => seq![
                Example {
                    line: "<module-includes>:1:1: error: umbrella header not found",
                    name: "message",
                    value: "error: umbrella header not found",
                },
            ],
            PatternId::UndefinedSymbolLocationError => seq![
                Example {
                    line: "MyClass in libFoo.a(MyClass.o)",
                    name: "message",
                    value: "MyClass in libFoo.a(MyClass.o)",
                },
            ],
            PatternId::PackageGraphResolvingStart => seq![
                Example {
                    line: "Resolve Package Graph",
                    name: "message",
                    value: "Resolve Package Graph",
                },
            ],
            PatternId::PackageGraphResolvingEnd => seq![
                Example {
                    line: "Resolved source packages:",
                    name: "message",
                    value: "Resolved source packages",
                },
            ],
            PatternId::PackageGraphResolvedItem => seq![
                Example {
                    line: "  StrasbourgParkAPI: https://github.com/x/y.git @ 3.0.2",
                    name: "message",
                    value: "StrasbourgParkAPI: https://github.com/x/y.git @ 3.0.2",
                },
            ],
            _ => Seq::empty(),
        }
    }

    /// The examples of the pattern.
    pub fn examples(self) -> (r: Vec<Example>)
        ensures
            r@ == self.spec_examples(),
    {
        match self {
            PatternId::TargetProject => vec![
                Example {
                    line: "Validate /x/App.app (in target 'My App' from project 'Proj')",
                    name: "target",
                    value: "My App",
                },
                Example {
                    line: "Validate /x/App.app (in target 'My App' from project 'Proj')",
                    name: "project",
                    value: "Proj",
                },
            ],
            PatternId::Analyze => vec![
                Example {
                    line: r"AnalyzeShallow /path/to/file.m normal x86_64 (in target 'MyTarget' from project 'MyProject')",
                    name: "filepath",
                    value: "/path/to/file.m",
                },
                Example {
                    line: r"AnalyzeShallow /path/to/file.m normal x86_64 (in target 'MyTarget' from project 'MyProject')",
                    name: "filename",
                    value: "file.m",
                },
                Example {
                    line: r"AnalyzeShallow /path/to/file.m normal x86_64 (in target 'MyTarget' from project 'MyProject')",
                    name: "target",
                    value: "MyTarget",
                },
                Example {
                    line: r"AnalyzeShallow /path/to/file.m normal x86_64 (in target 'MyTarget' from project 'MyProject')",
                    name: "project",
                    value: "MyProject",
                },
                Example {
                    line: r"AnalyzeShallow /path/to/file.c",
                    name: "filepath",
                    value: "/path/to/file.c",
                },
                Example {
                    line: r"AnalyzeShallow /path/to/file.c",
                    name: "filename",
                    value: "file.c",
                },
                Example {
                    line: r"Analyze /path/to/file.mm",
                    name: "filepath",
                    value: "/path/to/file.mm",
                },
                Example {
                    line: r"Analyze /path/to/file.mm",
                    name: "filename",
                    value: "file.mm",
                },
            ],
            PatternId::BuildTarget => vec![
                Example {
                    line: "=== BUILD TARGET ExampleTarget OF PROJECT ExampleProject WITH THE DEFAULT CONFIGURATION Local ===",
                    name: "target",
                    value: "ExampleTarget",
                },
                Example {
                    line: "=== BUILD TARGET ExampleTarget OF PROJECT ExampleProject WITH THE DEFAULT CONFIGURATION Local ===",
                    name: "project",
                    value: "ExampleProject",
                },
                Example {
                    line: "=== BUILD TARGET ExampleTarget OF PROJECT ExampleProject WITH THE DEFAULT CONFIGURATION Local ===",
                    name: "configuration",
                    value: "Local",
                },
            ],
            PatternId::AggregateTarget => vec![
                Example {
                    line: "=== BUILD AGGREGATE TARGET Example Target Name OF PROJECT AggregateTarget WITH CONFIGURATION Debug ===",
                    name: "target",
                    value: "Example Target Name",
                },
                Example {
                    line: "=== BUILD AGGREGATE TARGET Example Target Name OF PROJECT AggregateTarget WITH CONFIGURATION Debug ===",
                    name: "project",
                    value: "AggregateTarget",
                },
                Example {
                    line: "=== BUILD AGGREGATE TARGET Example Target Name OF PROJECT AggregateTarget WITH CONFIGURATION Debug ===",
                    name: "configuration",
                    value: "Debug",
                },
            ],
            PatternId::AnalyzeTarget => vec![
                Example {
                    line: "=== ANALYZE TARGET X OF PROJECT Y WITH THE DEFAULT CONFIGURATION Z ===",
                    name: "target",
                    value: "X",
                },
                Example {
                    line: "=== ANALYZE TARGET X OF PROJECT Y WITH THE DEFAULT CONFIGURATION Z ===",
                    name: "project",
                    value: "Y",
                },
                Example {
                    line: "=== ANALYZE TARGET X OF PROJECT Y WITH THE DEFAULT CONFIGURATION Z ===",
                    name: "configuration",
                    value: "Z",
                },
            ],
            PatternId::ShellCommand => vec![
                Example {
                    line: "    cd /foo/bar/baz",
                    name: "command",
                    value: "cd",
                },
                Example {
                    line: "    cd /foo/bar/baz",
                    name: "arguments",
                    value: "/foo/bar/baz",
                },
            ],
            PatternId::CleanRemove => vec![
                Example {
                    line: "Clean.Remove clean /path/to/MyLibrary.build/Debug-iphonesimulator/MyLibraryTests.build",
                    name: "filepath",
                    value: "/path/to/MyLibrary.build/Debug-iphonesimulator/MyLibraryTests.build",
                },
                Example {
                    line: "Clean.Remove clean /path/to/MyLibrary.build/Debug-iphonesimulator/MyLibraryTests.build",
                    name: "filename",
                    value: "MyLibraryTests.build",
                },
            ],
            PatternId::CleanTarget => vec![
                Example {
                    line: "=== CLEAN TARGET X OF PROJECT Y WITH THE DEFAULT CONFIGURATION Z ===",
                    name: "target",
                    value: "X",
                },
                Example {
                    line: "=== CLEAN TARGET X OF PROJECT Y WITH THE DEFAULT CONFIGURATION Z ===",
                    name: "project",
                    value: "Y",
                },
                Example {
                    line: "=== CLEAN TARGET X OF PROJECT Y WITH THE DEFAULT CONFIGURATION Z ===",
                    name: "configuration",
                    value: "Z",
                },
            ],
            PatternId::CodeSign => vec![
                Example {
                    line: "CodeSign path/to/DemoTarget.app (in target 'DemoTarget' from project 'DemoProject')",
                    name: "filename",
                    value: "DemoTarget.app",
                },
                Example {
                    line: "CodeSign path/to/DemoTarget.app (in target 'DemoTarget' from project 'DemoProject')",
                    name: "target",
                    value: "DemoTarget",
                },
                Example {
                    line: "CodeSign path/to/DemoTarget.app (in target 'DemoTarget' from project 'DemoProject')",
                    name: "project",
                    value: "DemoProject",
                },
            ],
            PatternId::Compile => vec![
                Example {
                    line: "CompileSwift normal arm64 /path/to/ToastView.swift (in target 'Example' from project 'Example')",
                    name: "type",
                    value: "Swift",
                },
                Example {
                    line: "CompileSwift normal arm64 /path/to/ToastView.swift (in target 'Example' from project 'Example')",
                    name: "filepath",
                    value: "/path/to/ToastView.swift",
                },
                Example {
                    line: "CompileSwift normal arm64 /path/to/ToastView.swift (in target 'Example' from project 'Example')",
                    name: "filename",
                    value: "ToastView.swift",
                },
                Example {
                    line: "CompileSwift normal arm64 /path/to/ToastView.swift (in target 'Example' from project 'Example')",
                    name: "project",
                    value: "Example",
                },
                Example {
                    line: "CompileSwift normal arm64 /path/to/ToastView.swift (in target 'Example' from project 'Example')",
                    name: "target",
                    value: "Example",
                },
                Example {
                    line: "CompileC /path/to/output/arm64/bridge.o /path/to/bridge.c normal arm64 c com.apple.compilers.llvm.clang.1_0.compiler (in target 'Example' from project 'Example')",
                    name: "type",
                    value: "C",
                },
                Example {
                    line: "CompileC /path/to/output/arm64/bridge.o /path/to/bridge.c normal arm64 c com.apple.compilers.llvm.clang.1_0.compiler (in target 'Example' from project 'Example')",
                    name: "filepath",
                    value: "/path/to/bridge.c",
                },
                Example {
                    line: "CompileC /path/to/output/arm64/bridge.o /path/to/bridge.c normal arm64 c com.apple.compilers.llvm.clang.1_0.compiler (in target 'Example' from project 'Example')",
                    name: "filename",
                    value: "bridge.c",
                },
                Example {
                    line: "CompileC /path/to/output/arm64/bridge.o /path/to/bridge.c normal arm64 c com.apple.compilers.llvm.clang.1_0.compiler (in target 'Example' from project 'Example')",
                    name: "project",
                    value: "Example",
                },
                Example {
                    line: "CompileC /path/to/output/arm64/bridge.o /path/to/bridge.c normal arm64 c com.apple.compilers.llvm.clang.1_0.compiler (in target 'Example' from project 'Example')",
                    name: "target",
                    value: "Example",
                },
            ],
            PatternId::CompileCommand => vec![
                Example {
                    line: "    /TOOLCHAIN_BIN/clang -target arm64-apple-macos10.10 -r -isysroot /MACOS_SDK -L/BUILD_ROOT -L/MACOS_SDK/lib -o /BUILD_ROOT/file.o",
                    name: "command",
                    value: "clang",
                },
                Example {
                    line: "    /TOOLCHAIN_BIN/clang -target arm64-apple-macos10.10 -r -isysroot /MACOS_SDK -L/BUILD_ROOT -L/MACOS_SDK/lib -o /BUILD_ROOT/file.o",
                    name: "arguments",
                    value: "-target arm64-apple-macos10.10 -r -isysroot /MACOS_SDK -L/BUILD_ROOT -L/MACOS_SDK/lib -o /BUILD_ROOT/file.o",
                },
                Example {
                    line: r"    /TOOLCHAIN_BIN/swiftc -incremental -module-name Example -Onone -enable-batch-mode -enforce-exclusivity\=checked -working-directory /PROJECT_ROOT",
                    name: "command",
                    value: "swiftc",
                },
                Example {
                    line: r"    /TOOLCHAIN_BIN/swiftc -incremental -module-name Example -Onone -enable-batch-mode -enforce-exclusivity\=checked -working-directory /PROJECT_ROOT",
                    name: "arguments",
                    value: r"-incremental -module-name Example -Onone -enable-batch-mode -enforce-exclusivity\=checked -working-directory /PROJECT_ROOT",
                },
            ],
            PatternId::CompileXIB => vec![
                Example {
                    line: "CompileXIB /path/to/MainMenu.xib (in target 'Example' from project 'Example')",
                    name: "filepath",
                    value: "/path/to/MainMenu.xib",
                },
                Example {
                    line: "CompileXIB /path/to/MainMenu.xib (in target 'Example' from project 'Example')",
                    name: "filename",
                    value: "MainMenu.xib",
                },
                Example {
                    line: "CompileXIB /path/to/MainMenu.xib (in target 'Example' from project 'Example')",
                    name: "project",
                    value: "Example",
                },
                Example {
                    line: "CompileXIB /path/to/MainMenu.xib (in target 'Example' from project 'Example')",
                    name: "target",
                    value: "Example",
                },
            ],
            PatternId::CompileStoryboard => vec![
                Example {
                    line: "CompileStoryboard /path/to/LaunchScreen.storyboard (in target 'Example' from project 'Example')",
                    name: "filepath",
                    value: "/path/to/LaunchScreen.storyboard",
                },
                Example {
                    line: "CompileStoryboard /path/to/LaunchScreen.storyboard (in target 'Example' from project 'Example')",
                    name: "filename",
                    value: "LaunchScreen.storyboard",
                },
                Example {
                    line: "CompileStoryboard /path/to/LaunchScreen.storyboard (in target 'Example' from project 'Example')",
                    name: "project",
                    value: "Example",
                },
                Example {
                    line: "CompileStoryboard /path/to/LaunchScreen.storyboard (in target 'Example' from project 'Example')",
                    name: "target",
                    value: "Example",
                },
            ],
            PatternId::CopyCommand => vec![
                Example {
                    line: "CpResource /output/EnWords.txt /path/to/EnWords.txt (in target 'Example' from project 'Example')",
                    name: "type",
                    value: "Resource",
                },
                Example {
                    line: "CpResource /output/EnWords.txt /path/to/EnWords.txt (in target 'Example' from project 'Example')",
                    name: "filepath",
                    value: "/path/to/EnWords.txt",
                },
                Example {
                    line: "CpResource /output/EnWords.txt /path/to/EnWords.txt (in target 'Example' from project 'Example')",
                    name: "filename",
                    value: "EnWords.txt",
                },
                Example {
                    line: "CpResource /output/EnWords.txt /path/to/EnWords.txt (in target 'Example' from project 'Example')",
                    name: "project",
                    value: "Example",
                },
                Example {
                    line: "CpResource /output/EnWords.txt /path/to/EnWords.txt (in target 'Example' from project 'Example')",
                    name: "target",
                    value: "Example",
                },
                Example {
                    line: "CpHeader /output/file.h /path/to/file.h (in target 'Example' from project 'Example')",
                    name: "type",
                    value: "Header",
                },
                Example {
                    line: "CpHeader /output/file.h /path/to/file.h (in target 'Example' from project 'Example')",
                    name: "filepath",
                    value: "/path/to/file.h",
                },
                Example {
                    line: "CpHeader /output/file.h /path/to/file.h (in target 'Example' from project 'Example')",
                    name: "filename",
                    value: "file.h",
                },
                Example {
                    line: "CpHeader /output/file.h /path/to/file.h (in target 'Example' from project 'Example')",
                    name: "project",
                    value: "Example",
                },
                Example {
                    line: "CpHeader /output/file.h /path/to/file.h (in target 'Example' from project 'Example')",
                    name: "target",
                    value: "Example",
                },
                Example {
                    line: "CopyStringsFile /output/InfoPlist.strings path/to/en.lproj/InfoPlist.strings (in target 'Example' from project 'Example')",
                    name: "type",
                    value: "StringsFile",
                },
                Example {
                    line: "CopyStringsFile /output/InfoPlist.strings path/to/en.lproj/InfoPlist.strings (in target 'Example' from project 'Example')",
                    name: "filepath",
                    value: "path/to/en.lproj/InfoPlist.strings",
                },
                Example {
                    line: "CopyStringsFile /output/InfoPlist.strings path/to/en.lproj/InfoPlist.strings (in target 'Example' from project 'Example')",
                    name: "filename",
                    value: "InfoPlist.strings",
                },
                Example {
                    line: "CopyStringsFile /output/InfoPlist.strings path/to/en.lproj/InfoPlist.strings (in target 'Example' from project 'Example')",
                    name: "project",
                    value: "Example",
                },
                Example {
                    line: "CopyStringsFile /output/InfoPlist.strings path/to/en.lproj/InfoPlist.strings (in target 'Example' from project 'Example')",
                    name: "target",
                    value: "Example",
                },
            ],
            PatternId::TestExecuted => vec![
                Example {
                    line: "     Executed 3 tests, with 1 failure (0 unexpected) in 0.258 (0.259) seconds",
                    name: "tests_count",
                    value: "3",
                },
                Example {
                    line: "     Executed 3 tests, with 1 failure (0 unexpected) in 0.258 (0.259) seconds",
                    name: "failed_tests_count",
                    value: "1",
                },
                Example {
                    line: "     Executed 3 tests, with 1 failure (0 unexpected) in 0.258 (0.259) seconds",
                    name: "unexpected_test_count",
                    value: "0",
                },
                Example {
                    line: "     Executed 3 tests, with 1 failure (0 unexpected) in 0.258 (0.259) seconds",
                    name: "total_exec_time",
                    value: "0.259",
                },
                Example {
                    line: "Executed 4 tests, with 0 failures (0 unexpected) in 0.003 (0.004) seconds",
                    name: "tests_count",
                    value: "4",
                },
                Example {
                    line: "Executed 4 tests, with 0 failures (0 unexpected) in 0.003 (0.004) seconds",
                    name: "failed_tests_count",
                    value: "0",
                },
                Example {
                    line: "Executed 4 tests, with 0 failures (0 unexpected) in 0.003 (0.004) seconds",
                    name: "unexpected_test_count",
                    value: "0",
                },
                Example {
                    line: "Executed 4 tests, with 0 failures (0 unexpected) in 0.003 (0.004) seconds",
                    name: "total_exec_time",
                    value: "0.004",
                },
            ],
            PatternId::TestExecutedWithSkipped => vec![
                Example {
                    line: "    Executed 56 tests, with 3 test skipped and 2 failures (1 unexpected) in 1.029 (1.029) seconds",
                    name: "tests_count",
                    value: "56",
                },
                Example {
                    line: "    Executed 56 tests, with 3 test skipped and 2 failures (1 unexpected) in 1.029 (1.029) seconds",
                    name: "skipped_test_count",
                    value: "3",
                },
                Example {
                    line: "    Executed 56 tests, with 3 test skipped and 2 failures (1 unexpected) in 1.029 (1.029) seconds",
                    name: "failed_tests_count",
                    value: "2",
                },
                Example {
                    line: "    Executed 56 tests, with 3 test skipped and 2 failures (1 unexpected) in 1.029 (1.029) seconds",
                    name: "unexpected_test_count",
                    value: "1",
                },
                Example {
                    line: "    Executed 56 tests, with 3 test skipped and 2 failures (1 unexpected) in 1.029 (1.029) seconds",
                    name: "total_exec_time",
                    value: "1.029",
                },
                Example {
                    line: "Executed 1 test, with 1 test skipped and 1 failure (1 unexpected) in 3.000 (3.000) seconds",
                    name: "tests_count",
                    value: "1",
                },
                Example {
                    line: "Executed 1 test, with 1 test skipped and 1 failure (1 unexpected) in 3.000 (3.000) seconds",
                    name: "skipped_test_count",
                    value: "1",
                },
                Example {
                    line: "Executed 1 test, with 1 test skipped and 1 failure (1 unexpected) in 3.000 (3.000) seconds",
                    name: "failed_tests_count",
                    value: "1",
                },
                Example {
                    line: "Executed 1 test, with 1 test skipped and 1 failure (1 unexpected) in 3.000 (3.000) seconds",
                    name: "unexpected_test_count",
                    value: "1",
                },
                Example {
                    line: "Executed 1 test, with 1 test skipped and 1 failure (1 unexpected) in 3.000 (3.000) seconds",
                    name: "total_exec_time",
                    value: "3.000",
                },
            ],
            PatternId::KiwiFailingTest => vec![
                Example {
                    line: "/path/to/tests.m:49: error: -[TestSuite TestCase] : 'Iterators, times： iterates the exact number of times' [FAILED], expected subject to equal 4, got 5",
                    name: "filepath",
                    value: "/path/to/tests.m:49",
                },
                Example {
                    line: "/path/to/tests.m:49: error: -[TestSuite TestCase] : 'Iterators, times： iterates the exact number of times' [FAILED], expected subject to equal 4, got 5",
                    name: "suite",
                    value: "TestSuite",
                },
                Example {
                    line: "/path/to/tests.m:49: error: -[TestSuite TestCase] : 'Iterators, times： iterates the exact number of times' [FAILED], expected subject to equal 4, got 5",
                    name: "case",
                    value: "TestCase",
                },
                Example {
                    line: "/path/to/tests.m:49: error: -[TestSuite TestCase] : 'Iterators, times： iterates the exact number of times' [FAILED], expected subject to equal 4, got 5",
                    name: "reason",
                    value: "expected subject to equal 4, got 5",
                },
            ],
            PatternId::UIFailingTest => vec![
                Example {
                    line: "t =    22.27s             Assertion Failure: <unknown>:0: UI Testing Failure - Unable to find hit point for element Button 0x608001165880: {{74.0, -54.0}, {44.0, 38.0}}, label: 'Disconnect'",
                    name: "filepath",
                    value: "<unknown>:0",
                },
                Example {
                    line: "t =    22.27s             Assertion Failure: <unknown>:0: UI Testing Failure - Unable to find hit point for element Button 0x608001165880: {{74.0, -54.0}, {44.0, 38.0}}, label: 'Disconnect'",
                    name: "reason",
                    value: "UI Testing Failure - Unable to find hit point for element Button 0x608001165880: {{74.0, -54.0}, {44.0, 38.0}}, label: 'Disconnect'",
                },
            ],
            PatternId::CoverageReportGeneration => vec![
                Example {
                    line: "Generated coverage report: /path/to/code coverage.xccovreport",
                    name: "filepath",
                    value: "/path/to/code coverage.xccovreport",
                },
            ],
            PatternId::GenerateDsymFile => vec![
                Example {
                    line: "GenerateDSYMFile /$BUILD/Release/DemoTarget.app.dSYM /$BUILD/Release/DemoTarget.app/Contents/MacOS/DemoTarget (in target 'DemoTarget' from project 'DemoProject')",
                    name: "filename",
                    value: "DemoTarget.app.dSYM",
                },
                Example {
                    line: "GenerateDSYMFile /$BUILD/Release/DemoTarget.app.dSYM /$BUILD/Release/DemoTarget.app/Contents/MacOS/DemoTarget (in target 'DemoTarget' from project 'DemoProject')",
                    name: "target",
                    value: "DemoTarget",
                },
                Example {
                    line: "GenerateDSYMFile /$BUILD/Release/DemoTarget.app.dSYM /$BUILD/Release/DemoTarget.app/Contents/MacOS/DemoTarget (in target 'DemoTarget' from project 'DemoProject')",
                    name: "project",
                    value: "DemoProject",
                },
            ],
            PatternId::Linking => vec![
                Example {
                    line: "Ld /path/to/file.o normal x86_64 (in target 'Example' from project 'Example')",
                    name: "filepath",
                    value: "/path/to/file.o",
                },
                Example {
                    line: "Ld /path/to/file.o normal x86_64 (in target 'Example' from project 'Example')",
                    name: "filename",
                    value: "file.o",
                },
                Example {
                    line: "Ld /path/to/file.o normal x86_64 (in target 'Example' from project 'Example')",
                    name: "target",
                    value: "Example",
                },
                Example {
                    line: "Ld /path/to/file.o normal x86_64 (in target 'Example' from project 'Example')",
                    name: "project",
                    value: "Example",
                },
            ],
            PatternId::TestSuiteStarted => vec![
                Example {
                    line: "Test Suite 'ObjectiveRecordTests.xctest' started at 2013-12-10 06:15:39 +0000",
                    name: "name",
                    value: "ObjectiveRecordTests.xctest",
                },
                Example {
                    line: "Test Suite 'ObjectiveRecordTests.xctest' started at 2013-12-10 06:15:39 +0000",
                    name: "time",
                    value: "2013-12-10 06:15:39 +0000",
                },
            ],
            PatternId::TestSuiteCompleted => vec![
                Example {
                    line: "Test Suite 'ObjectiveRecordTests.xctest' finished at 2013-12-10 06:15:42 +0000.",
                    name: "name",
                    value: "ObjectiveRecordTests.xctest",
                },
                Example {
                    line: "Test Suite 'ObjectiveRecordTests.xctest' finished at 2013-12-10 06:15:42 +0000.",
                    name: "time",
                    value: "2013-12-10 06:15:42 +0000",
                },
            ],
            PatternId::TestCaseStarted => vec![
                Example {
                    line: "Test Case '-[viewUITests.vmtAboutWindow testConnectToDesktop]' started.",
                    name: "suite",
                    value: "viewUITests.vmtAboutWindow",
                },
                Example {
                    line: "Test Case '-[viewUITests.vmtAboutWindow testConnectToDesktop]' started.",
                    name: "case",
                    value: "testConnectToDesktop",
                },
            ],
            PatternId::TestCasePassed => vec![
                Example {
                    line: "Test Case '-[TestSuite TestCase]' passed (0.001 seconds).",
                    name: "suite",
                    value: "TestSuite",
                },
                Example {
                    line: "Test Case '-[TestSuite TestCase]' passed (0.001 seconds).",
                    name: "case",
                    value: "TestCase",
                },
                Example {
                    line: "Test Case '-[TestSuite TestCase]' passed (0.001 seconds).",
                    name: "time",
                    value: "0.001",
                },
            ],
            PatternId::KiwiTestCasePending => vec![
                Example {
                    line: "Test Case '-[TestSuite TestCasePENDING]' passed (0.001 seconds).",
                    name: "suite",
                    value: "TestSuite",
                },
                Example {
                    line: "Test Case '-[TestSuite TestCasePENDING]' passed (0.001 seconds).",
                    name: "case",
                    value: "TestCase",
                },
            ],
            PatternId::TestCaseMeasure => vec![
                Example {
                    line: r#"<unknown>:0: Test Case '-[TestSuite TestCase]' measured [Time, seconds] average: 0.013, relative standard deviation: 26.773%, values: [0.023838, 0.012034, ], performanceMetricID:com.apple.XCTPerformanceMetric_WallClockTime, baselineName: "", baselineAverage: , maxPercentRegression: 10.000%, maxPercentRelativeStandardDeviation: 10.000%, maxRegression: 0.100, maxStandardDeviation: 0.100"#,
                    name: "suite",
                    value: "TestSuite",
                },
                Example {
                    line: r#"<unknown>:0: Test Case '-[TestSuite TestCase]' measured [Time, seconds] average: 0.013, relative standard deviation: 26.773%, values: [0.023838, 0.012034, ], performanceMetricID:com.apple.XCTPerformanceMetric_WallClockTime, baselineName: "", baselineAverage: , maxPercentRegression: 10.000%, maxPercentRelativeStandardDeviation: 10.000%, maxRegression: 0.100, maxStandardDeviation: 0.100"#,
                    name: "case",
                    value: "TestCase",
                },
                Example {
                    line: r#"<unknown>:0: Test Case '-[TestSuite TestCase]' measured [Time, seconds] average: 0.013, relative standard deviation: 26.773%, values: [0.023838, 0.012034, ], performanceMetricID:com.apple.XCTPerformanceMetric_WallClockTime, baselineName: "", baselineAverage: , maxPercentRegression: 10.000%, maxPercentRelativeStandardDeviation: 10.000%, maxRegression: 0.100, maxStandardDeviation: 0.100"#,
                    name: "time",
                    value: "0.013",
                },
            ],
            PatternId::ParallelTestCasePassed => vec![
                Example {
                    line: "Test case 'TestSuite.testCase()' passed on 'xctest (49438)' (0.131 seconds)",
                    name: "suite",
                    value: "TestSuite",
                },
                Example {
                    line: "Test case 'TestSuite.testCase()' passed on 'xctest (49438)' (0.131 seconds)",
                    name: "case",
                    value: "testCase",
                },
                Example {
                    line: "Test case 'TestSuite.testCase()' passed on 'xctest (49438)' (0.131 seconds)",
                    name: "time",
                    value: "0.131",
                },
                Example {
                    line: "Test case 'TestSuite.testCase()' passed on 'xctest (49438)' (0.131 seconds)",
                    name: "medium",
                    value: "xctest (49438)",
                },
            ],
            PatternId::ParallelTestCaseAppKitPassed => vec![
                Example {
                    line: "Test case '-[TestSuite testCase]' passed on 'xctest (49438)' (0.131 seconds).",
                    name: "suite",
                    value: "TestSuite",
                },
                Example {
                    line: "Test case '-[TestSuite testCase]' passed on 'xctest (49438)' (0.131 seconds).",
                    name: "case",
                    value: "testCase",
                },
                Example {
                    line: "Test case '-[TestSuite testCase]' passed on 'xctest (49438)' (0.131 seconds).",
                    name: "medium",
                    value: "xctest (49438)",
                },
                Example {
                    line: "Test case '-[TestSuite testCase]' passed on 'xctest (49438)' (0.131 seconds).",
                    name: "time",
                    value: "0.131",
                },
            ],
            PatternId::ParallelTestCaseFailed => vec![
                Example {
                    line: "Test case 'TestSuite.testCase()' failed on 'iPhone 11' (7.158 seconds)",
                    name: "suite",
                    value: "TestSuite",
                },
                Example {
                    line: "Test case 'TestSuite.testCase()' failed on 'iPhone 11' (7.158 seconds)",
                    name: "case",
                    value: "testCase",
                },
                Example {
                    line: "Test case 'TestSuite.testCase()' failed on 'iPhone 11' (7.158 seconds)",
                    name: "medium",
                    value: "iPhone 11",
                },
                Example {
                    line: "Test case 'TestSuite.testCase()' failed on 'iPhone 11' (7.158 seconds)",
                    name: "time",
                    value: "7.158",
                },
            ],
            PatternId::ParallelTestingStarted => vec![
                Example {
                    line: "Testing started on 'iPhone X'",
                    name: "medium",
                    value: "iPhone X",
                },
            ],
            PatternId::ParallelTestingPassed => vec![
                Example {
                    line: "Testing passed on 'iPhone X'",
                    name: "medium",
                    value: "iPhone X",
                },
            ],
            PatternId::ParallelTestingFailed => vec![
                Example {
                    line: "Testing failed on 'iPhone X'",
                    name: "medium",
                    value: "iPhone X",
                },
            ],
            PatternId::ParallelTestFailed => vec![
                Example {
                    line: "Test suite 'TestSuite (iOS).xctest' started on 'iPhone X'",
                    name: "suite",
                    value: "TestSuite (iOS).xctest",
                },
                Example {
                    line: "Test suite 'TestSuite (iOS).xctest' started on 'iPhone X'",
                    name: "medium",
                    value: "iPhone X",
                },
            ],
            PatternId::PhaseScriptExecution => vec![
                Example {
                    line: "PhaseScriptExecution Format\\ Swift\\ Files /path/to/file.sh (in target 'DemoTarget' from project 'DemoProject')",
                    name: "name",
                    value: "Format\\ Swift\\ Files",
                },
                Example {
                    line: "PhaseScriptExecution Format\\ Swift\\ Files /path/to/file.sh (in target 'DemoTarget' from project 'DemoProject')",
                    name: "target",
                    value: "DemoTarget",
                },
                Example {
                    line: "PhaseScriptExecution Format\\ Swift\\ Files /path/to/file.sh (in target 'DemoTarget' from project 'DemoProject')",
                    name: "project",
                    value: "DemoProject",
                },
                Example {
                    line: "PhaseScriptExecution [CP]\\ Check\\ Pods\\ Manifest.lock /path/to/file.sh (in target 'App' from project 'App')",
                    name: "name",
                    value: "[CP]\\ Check\\ Pods\\ Manifest.lock",
                },
                Example {
                    line: "PhaseScriptExecution [CP]\\ Check\\ Pods\\ Manifest.lock /path/to/file.sh (in target 'App' from project 'App')",
                    name: "target",
                    value: "App",
                },
                Example {
                    line: "PhaseScriptExecution [CP]\\ Check\\ Pods\\ Manifest.lock /path/to/file.sh (in target 'App' from project 'App')",
                    name: "project",
                    value: "App",
                },
            ],
            PatternId::ProcessPCH => vec![
                Example {
                    line: "ProcessPCH /path/to/file.pch.gch /path/to/file.pch normal x86_64 objective-c com.apple.compilers.llvm.clang.1_0.analyzer (in target 'App' from project 'App')",
                    name: "filename",
                    value: "file.pch",
                },
                Example {
                    line: "ProcessPCH /path/to/file.pch.gch /path/to/file.pch normal x86_64 objective-c com.apple.compilers.llvm.clang.1_0.analyzer (in target 'App' from project 'App')",
                    name: "target",
                    value: "App",
                },
                Example {
                    line: "ProcessPCH /path/to/file.pch.gch /path/to/file.pch normal x86_64 objective-c com.apple.compilers.llvm.clang.1_0.analyzer (in target 'App' from project 'App')",
                    name: "project",
                    value: "App",
                },
            ],
            PatternId::PbxCopy => vec![
                Example {
                    line: "PBXCp /path/to/header.h /path/to/output.h (in target 'App' from project 'App')",
                    name: "target",
                    value: "App",
                },
                Example {
                    line: "PBXCp /path/to/header.h /path/to/output.h (in target 'App' from project 'App')",
                    name: "project",
                    value: "App",
                },
                Example {
                    line: "PBXCp /path/to/header.h /path/to/output.h (in target 'App' from project 'App')",
                    name: "filepath",
                    value: "/path/to/header.h",
                },
            ],
            PatternId::ProcessInfoPlistFile => vec![
                Example {
                    line: "ProcessInfoPlistFile /path/to/output/Info.plist /path/to/Info.plist (in target 'Example' from project 'Example')",
                    name: "filepath",
                    value: "/path/to/Info.plist",
                },
                Example {
                    line: "ProcessInfoPlistFile /path/to/output/Info.plist /path/to/Info.plist (in target 'Example' from project 'Example')",
                    name: "filename",
                    value: "Info.plist",
                },
                Example {
                    line: "ProcessInfoPlistFile /path/to/output/Info.plist /path/to/Info.plist (in target 'Example' from project 'Example')",
                    name: "project",
                    value: "Example",
                },
                Example {
                    line: "ProcessInfoPlistFile /path/to/output/Info.plist /path/to/Info.plist (in target 'Example' from project 'Example')",
                    name: "target",
                    value: "Example",
                },
            ],
            PatternId::Touch => vec![
                Example {
                    line: "Touch /BUILD_ROOT/Example.app (in target 'Example' from project 'Example')",
                    name: "filepath",
                    value: "/BUILD_ROOT/Example.app",
                },
                Example {
                    line: "Touch /BUILD_ROOT/Example.app (in target 'Example' from project 'Example')",
                    name: "filename",
                    value: "Example.app",
                },
                Example {
                    line: "Touch /BUILD_ROOT/Example.app (in target 'Example' from project 'Example')",
                    name: "project",
                    value: "Example",
                },
                Example {
                    line: "Touch /BUILD_ROOT/Example.app (in target 'Example' from project 'Example')",
                    name: "target",
                    value: "Example",
                },
            ],
            PatternId::CompileWarning => vec![
                Example {
                    line: "/path/file.swift:64:69: warning: 'flatMap' is deprecated: Please use compactMap(_:) for the case where closure returns an optional value",
                    name: "location",
                    value: "/path/file.swift:64:69",
                },
                Example {
                    line: "/path/file.swift:64:69: warning: 'flatMap' is deprecated: Please use compactMap(_:) for the case where closure returns an optional value",
                    name: "filepath",
                    value: "/path/file.swift",
                },
                Example {
                    line: "/path/file.swift:64:69: warning: 'flatMap' is deprecated: Please use compactMap(_:) for the case where closure returns an optional value",
                    name: "message",
                    value: "'flatMap' is deprecated: Please use compactMap(_:) for the case where closure returns an optional value",
                },
            ],
            PatternId::LdWarning => vec![
                Example {
                    line: "ld: warning: directory not found",
                    name: "prefix",
                    value: "ld: ",
                },
                Example {
                    line: "ld: warning: directory not found",
                    name: "message",
                    value: "directory not found",
                },
            ],
            PatternId::GenericWarning => vec![
                Example {
                    line: "warning: something",
                    name: "message",
                    value: "something",
                },
            ],
            PatternId::CodeSignWarning => vec![
                Example {
                    line: "App will not be code signed because it is a test",
                    name: "message",
                    value: "App will not be code signed because it is a test",
                },
            ],
            PatternId::ClangError => vec![
                Example {
                    line: "clang: error: linker command failed with exit code 1 (use -v to see invocation)",
                    name: "message",
                    value: "clang: error: linker command failed with exit code 1 (use -v to see invocation)",
                },
            ],
            PatternId::CheckDependenciesError => vec![
                Example {
                    line: "Code Sign error: No code signing identities found",
                    name: "message",
                    value: "Code Sign error: No code signing identities found",
                },
            ],
            PatternId::ProvisioningProfileRequiredError => vec![
                Example {
                    line: "App requires a provisioning profile.",
                    name: "message",
                    value: "App requires a provisioning profile.",
                },
            ],
            PatternId::NoCertificateError => vec![
                Example {
                    line: "No certificate matching 'iPhone Distribution' for team",
                    name: "message",
                    value: "No certificate matching 'iPhone Distribution' for team",
                },
            ],
            PatternId::CompileError => vec![
                Example {
                    line: "/path/file.swift:64:69: error: cannot find 'input' in scope",
                    name: "location",
                    value: "/path/file.swift:64:69",
                },
                Example {
                    line: "/path/file.swift:64:69: error: cannot find 'input' in scope",
                    name: "filepath",
                    value: "/path/file.swift",
                },
                Example {
                    line: "/path/file.swift:64:69: error: cannot find 'input' in scope",
                    name: "message",
                    value: "cannot find 'input' in scope",
                },
            ],
            PatternId::Cursor => vec![
                Example {
                    line: "    ~~~^~~",
                    name: "content",
                    value: "    ~~~^~~",
                },
            ],
            PatternId::FatalError => vec![
                Example {
                    line: "fatal error: 'x.h' file not found",
                    name: "message",
                    value: "fatal error: 'x.h' file not found",
                },
            ],
            PatternId::FileMissingError => vec![
                Example {
                    line: "<unknown>:0: error: no such file or directory: '/path/to/file.swift'",
                    name: "message",
                    value: "error: no such file or directory:",
                },
                Example {
                    line: "<unknown>:0: error: no such file or directory: '/path/to/file.swift'",
                    name: "filepath",
                    value: "/path/to/file.swift",
                },
            ],
            PatternId::LdError => vec![
                Example {
                    line: "ld: library not found for -lPods",
                    name: "message",
                    value: "ld: library not found for -lPods",
                },
            ],
            PatternId::LinkerDuplicateSymbolsLocationError => vec![
                Example {
                    line: "    /path/to/file.o",
                    name: "message",
                    value: "/path/to/file.o",
                },
            ],
            PatternId::LinkerDuplicateSymbolsError => vec![
                Example {
                    line: "duplicate symbol _OBJC_IVAR_$ClassName._ivarName in:",
                    name: "message",
                    value: "duplicate symbol _OBJC_IVAR_$ClassName._ivarName in",
                },
            ],
            PatternId::LinkerUndefinedSymbolsLocationError => vec![
                Example {
                    line: "      objc-class-ref in MyClass.o",
                    name: "message",
                    value: "      objc-class-ref in MyClass.o",
                },
            ],
            PatternId::PodsError => vec![
                Example {
                    line: "error: The sandbox is not in sync",
                    name: "message",
                    value: "error: The sandbox is not in sync",
                },
            ],
            PatternId::SymbolReferencedFrom => vec![
                Example {
                    line: r#"  "_OBJC_CLASS_$_Foo", referenced from:"#,
                    name: "message",
                    value: "_OBJC_CLASS_$_Foo",
                },
            ],
            PatternId::ModuleIncludesError => vec![
                Example {
                    line: "<module-includes>:1:1: error: umbrella header not found",
                    name: "message",
                    value: "error: umbrella header not found",
                },
            ],
            PatternId::UndefinedSymbolLocationError => vec![
                Example {
                    line: "MyClass in libFoo.a(MyClass.o)",
                    name: "message",
                    value: "MyClass in libFoo.a(MyClass.o)",
                },
            ],
            PatternId::PackageGraphResolvingStart => vec![
                Example {
                    line: "Resolve Package Graph",
                    name: "message",
                    value: "Resolve Package Graph",
                },
            ],
            PatternId::PackageGraphResolvingEnd => vec![
                Example {
                    line: "Resolved source packages:",
                    name: "message",
                    value: "Resolved source packages",
                },
            ],
            PatternId::PackageGraphResolvedItem => vec![
                Example {
                    line: "  StrasbourgParkAPI: https://github.com/x/y.git @ 3.0.2",
                    name: "message",
                    value: "StrasbourgParkAPI: https://github.com/x/y.git @ 3.0.2",
                },
            ],
            _ => Vec::new(),
        }
    }
}

} // verus!
