//! The table of patterns: for each, its identifier, a description, the names
//! of its capture groups and its regular expression.

use vstd::prelude::*;
use crate::text::tokens;

verus! {

/// The patterns of the registry.
#[derive(Clone, Copy, Debug, PartialEq, Eq, Structural)]
pub enum PatternId {
    TargetProject,
    Analyze,
    BuildTarget,
    AggregateTarget,
    AnalyzeTarget,
    ShellCommand,
    CleanRemove,
    CleanTarget,
    CodeSign,
    Compile,
    CompileCommand,
    CompileXIB,
    CompileStoryboard,
    CopyCommand,
    TestExecuted,
    TestExecutedWithSkipped,
    KiwiFailingTest,
    UIFailingTest,
    CoverageReportGeneration,
    GenerateDsymFile,
    Linking,
    TestSuiteStarted,
    TestSuiteCompleted,
    TestCaseStarted,
    TestCasePassed,
    KiwiTestCasePending,
    TestCaseMeasure,
    ParallelTestCasePassed,
    ParallelTestCaseAppKitPassed,
    ParallelTestCaseFailed,
    ParallelTestingStarted,
    ParallelTestingPassed,
    ParallelTestingFailed,
    ParallelTestFailed,
    PhaseScriptExecution,
    ProcessPCH,
    ProcessPCHCommand,
    PbxCopy,
    ProcessInfoPlistFile,
    CheckDependencies,
    RestartingTests,
    CoverageDataGeneration,
    PhaseSuccess,
    TestSuiteAllTestsPassed,
    TestSuiteAllTestsFailed,
    Touch,
    CompileWarning,
    LdWarning,
    GenericWarning,
    CodeSignWarning,
    ClangError,
    CheckDependenciesError,
    ProvisioningProfileRequiredError,
    NoCertificateError,
    CompileError,
    Cursor,
    FatalError,
    FileMissingError,
    LdError,
    LinkerDuplicateSymbolsLocationError,
    LinkerDuplicateSymbolsError,
    LinkerUndefinedSymbolsLocationError,
    PodsError,
    SymbolReferencedFrom,
    ModuleIncludesError,
    UndefinedSymbolLocationError,
    PackageGraphResolvingStart,
    PackageGraphResolvingEnd,
    PackageGraphResolvedItem,
}

/// How many patterns the registry holds.
pub const PATTERN_COUNT: usize = 69;

/// What the registry holds of one pattern before it is compiled.
pub struct Definition {
    /// The name that the pattern goes by.
    pub identifier: &'static str,
    /// What the pattern is for, in a few words.
    pub description: &'static str,
    /// The names of the pattern's capture groups, separated by spaces.
    pub names: &'static str,
    /// The regular expression.
    pub source: &'static str,
}

impl PatternId {
    /// The place of the pattern in the table.
    pub open spec fn spec_position(self) -> nat {
        match self {
            PatternId::TargetProject => 0,
            PatternId::Analyze => 1,
            PatternId::BuildTarget => 2,
            PatternId::AggregateTarget => 3,
            PatternId::AnalyzeTarget => 4,
            PatternId::ShellCommand => 5,
            PatternId::CleanRemove => 6,
            PatternId::CleanTarget => 7,
            PatternId::CodeSign => 8,
            PatternId::Compile => 9,
            PatternId::CompileCommand => 10,
            PatternId::CompileXIB => 11,
            PatternId::CompileStoryboard => 12,
            PatternId::CopyCommand => 13,
            PatternId::TestExecuted => 14,
            PatternId::TestExecutedWithSkipped => 15,
            PatternId::KiwiFailingTest => 16,
            PatternId::UIFailingTest => 17,
            PatternId::CoverageReportGeneration => 18,
            PatternId::GenerateDsymFile => 19,
            PatternId::Linking => 20,
            PatternId::TestSuiteStarted => 21,
            PatternId::TestSuiteCompleted => 22,
            PatternId::TestCaseStarted => 23,
            PatternId::TestCasePassed => 24,
            PatternId::KiwiTestCasePending => 25,
            PatternId::TestCaseMeasure => 26,
            PatternId::ParallelTestCasePassed => 27,
            PatternId::ParallelTestCaseAppKitPassed => 28,
            PatternId::ParallelTestCaseFailed => 29,
            PatternId::ParallelTestingStarted => 30,
            PatternId::ParallelTestingPassed => 31,
            PatternId::ParallelTestingFailed => 32,
            PatternId::ParallelTestFailed => 33,
            PatternId::PhaseScriptExecution => 34,
            PatternId::ProcessPCH => 35,
            PatternId::ProcessPCHCommand => 36,
            PatternId::PbxCopy => 37,
            PatternId::ProcessInfoPlistFile => 38,
            PatternId::CheckDependencies => 39,
            PatternId::RestartingTests => 40,
            PatternId::CoverageDataGeneration => 41,
            PatternId::PhaseSuccess => 42,
            PatternId::TestSuiteAllTestsPassed => 43,
            PatternId::TestSuiteAllTestsFailed => 44,
            PatternId::Touch => 45,
            PatternId::CompileWarning => 46,
            PatternId::LdWarning => 47,
            PatternId::GenericWarning => 48,
            PatternId::CodeSignWarning => 49,
            PatternId::ClangError => 50,
            PatternId::CheckDependenciesError => 51,
            PatternId::ProvisioningProfileRequiredError => 52,
            PatternId::NoCertificateError => 53,
            PatternId::CompileError => 54,
            PatternId::Cursor => 55,
            PatternId::FatalError => 56,
            PatternId::FileMissingError => 57,
            PatternId::LdError => 58,
            PatternId::LinkerDuplicateSymbolsLocationError => 59,
            PatternId::LinkerDuplicateSymbolsError => 60,
            PatternId::LinkerUndefinedSymbolsLocationError => 61,
            PatternId::PodsError => 62,
            PatternId::SymbolReferencedFrom => 63,
            PatternId::ModuleIncludesError => 64,
            PatternId::UndefinedSymbolLocationError => 65,
            PatternId::PackageGraphResolvingStart => 66,
            PatternId::PackageGraphResolvingEnd => 67,
            PatternId::PackageGraphResolvedItem => 68,
        }
    }

    /// The place of the pattern in the table.
    pub fn position(self) -> (n: usize)
        ensures
            n == self.spec_position(),
            n < PATTERN_COUNT,
    {
        match self {
            PatternId::TargetProject => 0,
            PatternId::Analyze => 1,
            PatternId::BuildTarget => 2,
            PatternId::AggregateTarget => 3,
            PatternId::AnalyzeTarget => 4,
            PatternId::ShellCommand => 5,
            PatternId::CleanRemove => 6,
            PatternId::CleanTarget => 7,
            PatternId::CodeSign => 8,
            PatternId::Compile => 9,
            PatternId::CompileCommand => 10,
            PatternId::CompileXIB => 11,
            PatternId::CompileStoryboard => 12,
            PatternId::CopyCommand => 13,
            PatternId::TestExecuted => 14,
            PatternId::TestExecutedWithSkipped => 15,
            PatternId::KiwiFailingTest => 16,
            PatternId::UIFailingTest => 17,
            PatternId::CoverageReportGeneration => 18,
            PatternId::GenerateDsymFile => 19,
            PatternId::Linking => 20,
            PatternId::TestSuiteStarted => 21,
            PatternId::TestSuiteCompleted => 22,
            PatternId::TestCaseStarted => 23,
            PatternId::TestCasePassed => 24,
            PatternId::KiwiTestCasePending => 25,
            PatternId::TestCaseMeasure => 26,
            PatternId::ParallelTestCasePassed => 27,
            PatternId::ParallelTestCaseAppKitPassed => 28,
            PatternId::ParallelTestCaseFailed => 29,
            PatternId::ParallelTestingStarted => 30,
            PatternId::ParallelTestingPassed => 31,
            PatternId::ParallelTestingFailed => 32,
            PatternId::ParallelTestFailed => 33,
            PatternId::PhaseScriptExecution => 34,
            PatternId::ProcessPCH => 35,
            PatternId::ProcessPCHCommand => 36,
            PatternId::PbxCopy => 37,
            PatternId::ProcessInfoPlistFile => 38,
            PatternId::CheckDependencies => 39,
            PatternId::RestartingTests => 40,
            PatternId::CoverageDataGeneration => 41,
            PatternId::PhaseSuccess => 42,
            PatternId::TestSuiteAllTestsPassed => 43,
            PatternId::TestSuiteAllTestsFailed => 44,
            PatternId::Touch => 45,
            PatternId::CompileWarning => 46,
            PatternId::LdWarning => 47,
            PatternId::GenericWarning => 48,
            PatternId::CodeSignWarning => 49,
            PatternId::ClangError => 50,
            PatternId::CheckDependenciesError => 51,
            PatternId::ProvisioningProfileRequiredError => 52,
            PatternId::NoCertificateError => 53,
            PatternId::CompileError => 54,
            PatternId::Cursor => 55,
            PatternId::FatalError => 56,
            PatternId::FileMissingError => 57,
            PatternId::LdError => 58,
            PatternId::LinkerDuplicateSymbolsLocationError => 59,
            PatternId::LinkerDuplicateSymbolsError => 60,
            PatternId::LinkerUndefinedSymbolsLocationError => 61,
            PatternId::PodsError => 62,
            PatternId::SymbolReferencedFrom => 63,
            PatternId::ModuleIncludesError => 64,
            PatternId::UndefinedSymbolLocationError => 65,
            PatternId::PackageGraphResolvingStart => 66,
            PatternId::PackageGraphResolvingEnd => 67,
            PatternId::PackageGraphResolvedItem => 68,
        }
    }

    /// The pattern at place `n` of the table.
    pub fn from_position(n: usize) -> (id: PatternId)
        requires
            n < PATTERN_COUNT,
        ensures
            id.spec_position() == n,
    {
        match n {
            0 => PatternId::TargetProject,
            1 => PatternId::Analyze,
            2 => PatternId::BuildTarget,
            3 => PatternId::AggregateTarget,
            4 => PatternId::AnalyzeTarget,
            5 => PatternId::ShellCommand,
            6 => PatternId::CleanRemove,
            7 => PatternId::CleanTarget,
            8 => PatternId::CodeSign,
            9 => PatternId::Compile,
            10 => PatternId::CompileCommand,
            11 => PatternId::CompileXIB,
            12 => PatternId::CompileStoryboard,
            13 => PatternId::CopyCommand,
            14 => PatternId::TestExecuted,
            15 => PatternId::TestExecutedWithSkipped,
            16 => PatternId::KiwiFailingTest,
            17 => PatternId::UIFailingTest,
            18 => PatternId::CoverageReportGeneration,
            19 => PatternId::GenerateDsymFile,
            20 => PatternId::Linking,
            21 => PatternId::TestSuiteStarted,
            22 => PatternId::TestSuiteCompleted,
            23 => PatternId::TestCaseStarted,
            24 => PatternId::TestCasePassed,
            25 => PatternId::KiwiTestCasePending,
            26 => PatternId::TestCaseMeasure,
            27 => PatternId::ParallelTestCasePassed,
            28 => PatternId::ParallelTestCaseAppKitPassed,
            29 => PatternId::ParallelTestCaseFailed,
            30 => PatternId::ParallelTestingStarted,
            31 => PatternId::ParallelTestingPassed,
            32 => PatternId::ParallelTestingFailed,
            33 => PatternId::ParallelTestFailed,
            34 => PatternId::PhaseScriptExecution,
            35 => PatternId::ProcessPCH,
            36 => PatternId::ProcessPCHCommand,
            37 => PatternId::PbxCopy,
            38 => PatternId::ProcessInfoPlistFile,
            39 => PatternId::CheckDependencies,
            40 => PatternId::RestartingTests,
            41 => PatternId::CoverageDataGeneration,
            42 => PatternId::PhaseSuccess,
            43 => PatternId::TestSuiteAllTestsPassed,
            44 => PatternId::TestSuiteAllTestsFailed,
            45 => PatternId::Touch,
            46 => PatternId::CompileWarning,
            47 => PatternId::LdWarning,
            48 => PatternId::GenericWarning,
            49 => PatternId::CodeSignWarning,
            50 => PatternId::ClangError,
            51 => PatternId::CheckDependenciesError,
            52 => PatternId::ProvisioningProfileRequiredError,
            53 => PatternId::NoCertificateError,
            54 => PatternId::CompileError,
            55 => PatternId::Cursor,
            56 => PatternId::FatalError,
            57 => PatternId::FileMissingError,
            58 => PatternId::LdError,
            59 => PatternId::LinkerDuplicateSymbolsLocationError,
            60 => PatternId::LinkerDuplicateSymbolsError,
            61 => PatternId::LinkerUndefinedSymbolsLocationError,
            62 => PatternId::PodsError,
            63 => PatternId::SymbolReferencedFrom,
            64 => PatternId::ModuleIncludesError,
            65 => PatternId::UndefinedSymbolLocationError,
            66 => PatternId::PackageGraphResolvingStart,
            67 => PatternId::PackageGraphResolvingEnd,
            _ => PatternId::PackageGraphResolvedItem,
        }
    }

    /// The table itself.
    pub open spec fn spec_definition(self) -> Definition {
        match self {
            PatternId::TargetProject => Definition {
                identifier: "TargetProject",
                description: "Target and project of a step",
                names: "target project",
                source: r"\(in\starget\s'(?P<target>.*)'\sfrom\sproject\s'(?P<project>.*)'\)",
            },
            PatternId::Analyze => Definition {
                identifier: "Analyze",
                description: "Analyze/AnalyzeShallow",
                names: "filepath filename target project",
                source: r"(?x)
      Analyze(?:Shallow)?\s
      # Filepath and filename
      ( ?P<filepath>.*/( ?P<filename>.*\.(?:mm|m|cc|cpp|c|cxx) ) )
      ( ?:\s.* \((?:in\starget\s      '(?P<target>.*)'\s  from\sproject\s   '(?P<project>.*)' )\)  ) ?",
            },
            PatternId::BuildTarget => Definition {
                identifier: "BuildTarget",
                description: "BUILD TARGET",
                names: "target project configuration",
                source: r"={3}\sBUILD\sTARGET\s(?P<target>.*)\sOF\sPROJECT\s(?P<project>.*)\sWITH.*CONFIGURATION\s(?P<configuration>.*)\s={3}",
            },
            PatternId::AggregateTarget => Definition {
                identifier: "AggregateTarget",
                description: "BUILD AGGREGATE TARGET",
                names: "target project configuration",
                source: r"={3}\sBUILD\sAGGREGATE\sTARGET\s(?P<target>.*)\sOF\sPROJECT\s(?P<project>.*)\sWITH.*CONFIGURATION\s(?P<configuration>.*)\s={3}",
            },
            PatternId::AnalyzeTarget => Definition {
                identifier: "AnalyzeTarget",
                description: "ANALYZE TARGET",
                names: "target project configuration",
                source: r"={3}\sANALYZE\sTARGET\s(?P<target>.*)\sOF\sPROJECT\s(?P<project>.*)\sWITH.*CONFIGURATION\s(?P<configuration>.*)\s={3}",
            },
            PatternId::ShellCommand => Definition {
                identifier: "ShellCommand",
                description: "Shell commands like cd setenv under a compile step",
                names: "command arguments",
                source: r"\s{4}(?P<command>cd|setenv|(?:[\w/:\s\-.]+?/)?[\w\-]+)\s(?P<arguments>.*)$",
            },
            PatternId::CleanRemove => Definition {
                identifier: "CleanRemove",
                description: "CLEAN REMOVE",
                names: "filepath filename",
                source: r"(?x)Clean.Remove\sclean\s
      # filepath and filename
      ( ?P<filepath>.*/ ( ?P<filename>.*\.(?:build) ))",
            },
            PatternId::CleanTarget => Definition {
                identifier: "CleanTarget",
                description: "CLEAN TARGET",
                names: "target project configuration",
                source: r"={3}\sCLEAN\sTARGET\s(?P<target>.*)\sOF\sPROJECT\s(?P<project>.*)\sWITH.*CONFIGURATION\s(?P<configuration>.*)\s={3}",
            },
            PatternId::CodeSign => Definition {
                identifier: "CodeSign",
                description: "CodeSign Phase",
                names: "filename target project",
                source: r"CodeSign\s(:?.*/(?P<filename>.*\.(?:app)))(?:\s.*\((?:in\starget\s'(?P<target>.*)'\sfrom\sproject\s'(?P<project>.*)')\))?",
            },
            PatternId::Compile => Definition {
                identifier: "Compile",
                description: r"Compile(Swift|C|\w) Step",
                names: "type filepath filename target project",
                source: r"(?x)
        # Compile <type>
        Compile(?P<type>[\w]+)\s.+?\s
        # <filepath>
        (?P<filepath>(?:\.|[^\s])+/(?P<filename>(?:\.|[^\s])+\.(?:m|mm|c|cc|cpp|cxx|swift)))
        (?:\s.*\((?:in\starget\s'(?P<target>.*)'\sfrom\sproject\s'(?P<project>.*)')\))?",
            },
            PatternId::CompileCommand => Definition {
                identifier: "CompileCommand",
                description: "Clang and swiftc command",
                names: "command arguments",
                source: r"\s{4}(:?[^\s]+/(?P<command>\w+))\s(?P<arguments>.*)",
            },
            PatternId::CompileXIB => Definition {
                identifier: "CompileXIB",
                description: "CompileXIB",
                names: "filepath filename target project",
                source: r"CompileXIB\s(?P<filepath>.*/(?P<filename>.*\.xib))(?:\s.*\((?:in\starget\s'(?P<target>.*)'\sfrom\sproject\s'(?P<project>.*)')\))?",
            },
            PatternId::CompileStoryboard => Definition {
                identifier: "CompileStoryboard",
                description: "CompileStoryboard",
                names: "filepath filename target project",
                source: r"CompileStoryboard\s(?P<filepath>.*/(?P<filename>[^/].*\.storyboard))(?:\s.*\((?:in\starget\s'(?P<target>.*)'\sfrom\sproject\s'(?P<project>.*)')\))?",
            },
            PatternId::CopyCommand => Definition {
                identifier: "CopyCommand",
                description: "CpResource|CpHeader|CopyStringsFile|CopyPlistFile",
                names: "type filepath filename target project",
                source: r"(?x)
               (:?Cp|Copy)(?P<type>Resource|Header|PlistFile|StringsFile)\s.*\s
               (?P<filepath>.*/(?P<filename>.*\.(?:\w+)))
               (?:\s.*\((?:in\starget\s'(?P<target>.*)'\sfrom\sproject\s'(?P<project>.*)')\))?",
            },
            PatternId::TestExecuted => Definition {
                identifier: "TestExecuted",
                description: "Executed number of tests",
                names: "tests_count failed_tests_count unexpected_test_count total_exec_time",
                source: r"(?x)\s*Executed\s
        (?P<tests_count>\d+)\stest[s]?,\swith\s
        (?P<failed_tests_count>\d+)\sfailure[s]?\s
        \((?P<unexpected_test_count>\d+)\sunexpected\)\sin\s\d+\.\d{3}\s
        \((?P<total_exec_time>\d+\.\d{3})\)\sseconds",
            },
            PatternId::TestExecutedWithSkipped => Definition {
                identifier: "TestExecutedWithSkipped",
                description: "Executed number of tests with skipped teats",
                names: "tests_count skipped_test_count failed_tests_count unexpected_test_count total_exec_time",
                source: r"(?x)
        \s*Executed\s
        (?P<tests_count>\d+)\stest[s]?,\swith\s
        (?P<skipped_test_count>\d+)\stest[s]?\sskipped\sand\s
        (?P<failed_tests_count>\d+)\sfailure[s]?\s
        \((?P<unexpected_test_count>\d+)\sunexpected\)\sin\s\d+\.\d{3}\s
        \((?P<total_exec_time>\d+\.\d{3})\)\sseconds",
            },
            PatternId::KiwiFailingTest => Definition {
                identifier: "KiwiFailingTest",
                description: "Kiwi Test failing",
                names: "filepath suite case reason",
                source: r"(?x)\s*
        (?P<filepath>.+:\d+):\serror:\s[\+\-]
        \[
          (?P<suite>.*)\s
          (?P<case>.*)
         \]\s:(?:\s'.*'\s\[FAILED\],)?\s
        (?P<reason>.*)",
            },
            PatternId::UIFailingTest => Definition {
                identifier: "UIFailingTest",
                description: "UI Test failing",
                names: "filepath reason",
                source: r"\s*t = \s+\d+\.\d+s\s+Assertion Failure: (?P<filepath>.*:\d+): (?P<reason>.*)$",
            },
            PatternId::CoverageReportGeneration => Definition {
                identifier: "CoverageReportGeneration",
                description: "Coverage report generation",
                names: "filepath",
                source: r"(?i)generated\s+coverage\s+report:\s+(?P<filepath>.+)",
            },
            PatternId::GenerateDsymFile => Definition {
                identifier: "GenerateDsymFile",
                description: "GenerateDSYMFile",
                names: "filename target project",
                source: r"(?x)
        GenerateDSYMFile\s/.*/
        (?P<filename>.*\.dSYM)\s/.*
        \((?:in\starget\s'(?P<target>.*)'\sfrom\sproject\s'(?P<project>.*)')\)?",
            },
            PatternId::Linking => Definition {
                identifier: "Linking",
                description: "Ld",
                names: "filepath filename target project",
                source: r"Ld\s(?P<filepath>.*/(?P<filename>\w+\.\w+)).*\((?:in\starget\s'(?P<target>.*)'\sfrom\sproject\s'(?P<project>.*)')\)?",
            },
            PatternId::TestSuiteStarted => Definition {
                identifier: "TestSuiteStarted",
                description: "Test Suites Started",
                names: "name time",
                source: r"\s*Test Suite '(?:.*/)?(?P<name>.*[ox]ctest.*)' started at (?P<time>.*)",
            },
            PatternId::TestSuiteCompleted => Definition {
                identifier: "TestSuiteCompleted",
                description: "Test Suites Completed",
                names: "name time",
                source: r"\s*Test Suite '(?:.*/)?(?P<name>.*[ox]ctest.*)' (finished|passed|failed) at (?P<time>.*)\.",
            },
            PatternId::TestCaseStarted => Definition {
                identifier: "TestCaseStarted",
                description: "Test Case Started",
                names: "suite case",
                source: r"\s*Test Case '-\[(?P<suite>.*) (?P<case>.*)\]' started.$",
            },
            PatternId::TestCasePassed => Definition {
                identifier: "TestCasePassed",
                description: "Test Case Passed",
                names: "suite case time",
                source: r"\s*Test Case\s'-\[(?P<suite>.*)\s(?P<case>.*)\]'\spassed\s\((?P<time>\d*\.\d{3})\sseconds\).",
            },
            PatternId::KiwiTestCasePending => Definition {
                identifier: "KiwiTestCasePending",
                description: "Kiwi test case pending",
                names: "suite case",
                source: r"Test Case\s'-\[(?P<suite>.*)\s(?P<case>.*)PENDING\]'\spassed",
            },
            PatternId::TestCaseMeasure => Definition {
                identifier: "TestCaseMeasure",
                description: "Test case measuring",
                names: "suite case time",
                source: r"[^:]*:[^:]*:\sTest Case\s'-\[(?P<suite>.*)\s(?P<case>.*)\]'\smeasured\s\[Time,\sseconds\]\saverage:\s(?P<time>\d*\.\d{3})(.*){4}",
            },
            PatternId::ParallelTestCasePassed => Definition {
                identifier: "ParallelTestCasePassed",
                description: "Parallel TestCase passed",
                names: "suite case medium time",
                source: r"Test\s+case\s+'(?P<suite>.*)\.(?P<case>.*)\(\)'\s+passed\s+on\s+'(?P<medium>.*)'\s+\((?P<time>\d*\.(.*){3})\s+seconds\)",
            },
            PatternId::ParallelTestCaseAppKitPassed => Definition {
                identifier: "ParallelTestCaseAppKitPassed",
                description: "Parallel TestCase AppKit Passed",
                names: "suite case medium time",
                source: r"\s*Test case\s'-\[(?P<suite>.*)\s(?P<case>.*)\]'\spassed\son\s'(?P<medium>.*)'\s\((?P<time>\d*\.\d{3})\sseconds\)",
            },
            PatternId::ParallelTestCaseFailed => Definition {
                identifier: "ParallelTestCaseFailed",
                description: "Parallel TestCase Failed",
                names: "suite case medium time",
                source: r"Test\s+case\s+'(?P<suite>.*)\.(?P<case>.*)\(\)'\s+failed\s+on\s+'(?P<medium>.*)'\s+\((?P<time>\d*\.(.*){3})\s+seconds\)",
            },
            PatternId::ParallelTestingStarted => Definition {
                identifier: "ParallelTestingStarted",
                description: "Parallel Testing Started",
                names: "medium",
                source: r"Testing\s+started\s+on\s+'(?P<medium>.*)'",
            },
            PatternId::ParallelTestingPassed => Definition {
                identifier: "ParallelTestingPassed",
                description: "Parallel Testing Passed",
                names: "medium",
                source: r"Testing\s+passed\s+on\s+'(?P<medium>.*)'",
            },
            PatternId::ParallelTestingFailed => Definition {
                identifier: "ParallelTestingFailed",
                description: "Parallel Testing Failed",
                names: "medium",
                source: r"Testing\s+failed\s+on\s+'(?P<medium>.*)'",
            },
            PatternId::ParallelTestFailed => Definition {
                identifier: "ParallelTestFailed",
                description: "Parallel Testing Failed",
                names: "suite medium",
                source: r"(?i)\s*Test\s+Suite\s+'(?P<suite>.*)'\s+started\s+on\s+'(?P<medium>.*)'",
            },
            PatternId::PhaseScriptExecution => Definition {
                identifier: "PhaseScriptExecution",
                description: "PhaseScriptExecution",
                names: "name target project",
                source: r"(?x)PhaseScriptExecution\s(?P<name>.*)\s/.*\.sh( ?:\s.* \((?:in\starget\s      '(?P<target>.*)'\s  from\sproject\s   '(?P<project>.*)' )\)  ) ?",
            },
            PatternId::ProcessPCH => Definition {
                identifier: "ProcessPCH",
                description: "ProcessPCH",
                names: "filename target project",
                source: r"(?x)ProcessPCH(?:\+\+)?\s.*\s/.*/(?P<filename>.*.pch)( ?:\s.* \((?:in\starget\s      '(?P<target>.*)'\s  from\sproject\s   '(?P<project>.*)' )\)  ) ?",
            },
            PatternId::ProcessPCHCommand => Definition {
                identifier: "ProcessPCHCommand",
                description: "ProcessPchCommand",
                names: "",
                source: r"\s*.*/usr/bin/clang\s.*\s\-c\s(.*.pch)\s.*\-o\s.*",
            },
            PatternId::PbxCopy => Definition {
                identifier: "PbxCopy",
                description: "PBXCp",
                names: "filepath target project",
                source: r"(?x)PBXCp\s(?P<filepath>/.*)\s/.*\((?:in\starget\s'(?P<target>.*)'\sfrom\sproject\s'(?P<project>.*)')\)",
            },
            PatternId::ProcessInfoPlistFile => Definition {
                identifier: "ProcessInfoPlistFile",
                description: "ProcessInfoPlistFile",
                names: "filepath filename target project",
                source: r"(?x)ProcessInfoPlistFile\s.*\s
        (?P<filepath>/(?:\.|[^\s])+/(?P<filename>(?:\.|[^\s])+\.(?:plist)))
        (?:\s.*\((?:in\starget\s'(?P<target>.*)'\sfrom\sproject\s'(?P<project>.*)')\))?",
            },
            PatternId::CheckDependencies => Definition {
                identifier: "CheckDependencies",
                description: "Check dependencies",
                names: "",
                source: "Check dependencies",
            },
            PatternId::RestartingTests => Definition {
                identifier: "RestartingTests",
                description: "Test restarting",
                names: "",
                source: "Restarting after unexpected exit.+$",
            },
            PatternId::CoverageDataGeneration => Definition {
                identifier: "CoverageDataGeneration",
                description: "Coverage Data Generation",
                names: "",
                source: r"generating\s+coverage\s+data\.*",
            },
            PatternId::PhaseSuccess => Definition {
                identifier: "PhaseSuccess",
                description: "Phase Success",
                names: "",
                source: r"\*\*\s(.*)\sSUCCEEDED\s\*\*",
            },
            PatternId::TestSuiteAllTestsPassed => Definition {
                identifier: "TestSuiteAllTestsPassed",
                description: "Test Suite All Tests Passed",
                names: "",
                source: r"\s*Test Suite 'All tests' passed at",
            },
            PatternId::TestSuiteAllTestsFailed => Definition {
                identifier: "TestSuiteAllTestsFailed",
                description: "Test Suite All Tests Passed",
                names: "",
                source: r"\s*Test Suite 'All tests' failed at",
            },
            PatternId::Touch => Definition {
                identifier: "Touch",
                description: "Touch file",
                names: "filepath filename target project",
                source: r"(?x)Touch\s(?P<filepath>/(?:\.|[^\s])+/(?P<filename>(?:\.|[^\s])+\.(?:\w+)))
        (?:\s.*\((?:in\starget\s'(?P<target>.*)'\sfrom\sproject\s'(?P<project>.*)')\))?",
            },
            PatternId::CompileWarning => Definition {
                identifier: "CompileWarning",
                description: "Compile Warning",
                names: "location filepath message",
                source: r"(?P<location>(?P<filepath>[^:]*):\d*:\d*):\swarning:\s(?P<message>.*)$",
            },
            PatternId::LdWarning => Definition {
                identifier: "LdWarning",
                description: "Linking Warning",
                names: "prefix message",
                source: "(?P<prefix>ld:.*)warning: (?P<message>.*)",
            },
            PatternId::GenericWarning => Definition {
                identifier: "GenericWarning",
                description: "Generic Error (catch all)",
                names: "message",
                source: r"warning:\s(?P<message>.*)$",
            },
            PatternId::CodeSignWarning => Definition {
                identifier: "CodeSignWarning",
                description: "Sign warnning",
                names: "message",
                source: "(?P<message>.* will not be code signed because .*)$",
            },
            PatternId::ClangError => Definition {
                identifier: "ClangError",
                description: "Clang Error",
                names: "message",
                source: "(?P<message>clang: error:.*)$",
            },
            PatternId::CheckDependenciesError => Definition {
                identifier: "CheckDependenciesError",
                description: "Check Dependencies error",
                names: "message",
                source: r"(?P<message>Code\s?Sign error:.*|Code signing is required for product type .* in SDK .*|No profile matching .* found:.*|Provisioning profile .* doesn't .*|Swift is unavailable on .*|.?Use Legacy Swift Language Version.*)$",
            },
            PatternId::ProvisioningProfileRequiredError => Definition {
                identifier: "ProvisioningProfileRequiredError",
                description: "General Check Depeds error",
                names: "message",
                source: "(?P<message>.*requires a provisioning profile.*)$",
            },
            PatternId::NoCertificateError => Definition {
                identifier: "NoCertificateError",
                description: "General Check Depeds error",
                names: "message",
                source: "(?P<message>No certificate matching.*)$",
            },
            PatternId::CompileError => Definition {
                identifier: "CompileError",
                description: "Compile Error",
                names: "location filepath message",
                source: r"\s*(?P<location>(?P<filepath>[^:]*):\d*:\d*):\s(?:fatal\s)?error:\s(?P<message>.*)$",
            },
            PatternId::Cursor => Definition {
                identifier: "Cursor",
                description: "Cursor",
                names: "content",
                source: r"(?P<content>[\s~]*\^[\s~]*)$",
            },
            PatternId::FatalError => Definition {
                identifier: "FatalError",
                description: "Compile Error",
                names: "message",
                source: "(?P<message>fatal error:.*)$",
            },
            PatternId::FileMissingError => Definition {
                identifier: "FileMissingError",
                description: "File missing Error",
                names: "message filepath",
                source: r"<unknown>:0:\s(?P<message>error:\s.*)\s'(?P<filepath>/.+/.*\..*)'$",
            },
            PatternId::LdError => Definition {
                identifier: "LdError",
                description: "Ld Error",
                names: "message",
                source: "(?P<message>ld:.*)",
            },
            PatternId::LinkerDuplicateSymbolsLocationError => Definition {
                identifier: "LinkerDuplicateSymbolsLocationError",
                description: "duplicate symbols location",
                names: "message",
                source: r"\s+(?P<message>/.*\.o[\)]?)$",
            },
            PatternId::LinkerDuplicateSymbolsError => Definition {
                identifier: "LinkerDuplicateSymbolsError",
                description: "Linker Duplicate Symbols Error",
                names: "message",
                source: "(?P<message>duplicate symbol .*):$",
            },
            PatternId::LinkerUndefinedSymbolsLocationError => Definition {
                identifier: "LinkerUndefinedSymbolsLocationError",
                description: "Linker Undefined Symbols Location Error",
                names: "message",
                source: r"(?P<message>.* in .*\.o)$",
            },
            PatternId::PodsError => Definition {
                identifier: "PodsError",
                description: "Pods error",
                names: "message",
                source: r"(?P<message>error:\s.*)",
            },
            PatternId::SymbolReferencedFrom => Definition {
                identifier: "SymbolReferencedFrom",
                description: "Symbol reference from error",
                names: "message",
                source: r#"\s+"(?P<message>.*)", referenced from:$"#,
            },
            PatternId::ModuleIncludesError => Definition {
                identifier: "ModuleIncludesError",
                description: "module includes error",
                names: "message",
                source: r"<module-includes>:.*?:.*?:\s(?:fatal\s)?(?P<message>error:\s.*)$",
            },
            PatternId::UndefinedSymbolLocationError => Definition {
                identifier: "UndefinedSymbolLocationError",
                description: "Undefined symol location",
                names: "message",
                source: r"(?P<message>.+ in (.+)\((.+)\.o\))$",
            },
            PatternId::PackageGraphResolvingStart => Definition {
                identifier: "PackageGraphResolvingStart",
                description: "Package Graph Resolving Start",
                names: "message",
                source: r"\s*(?P<message>Resolve Package Graph)\s*$",
            },
            PatternId::PackageGraphResolvingEnd => Definition {
                identifier: "PackageGraphResolvingEnd",
                description: "Package Graph Resolving Ended",
                names: "message",
                source: "(?P<message>Resolved source packages):$",
            },
            PatternId::PackageGraphResolvedItem => Definition {
                identifier: "PackageGraphResolvedItem",
                description: "Package Graph Resolved Item",
                names: "message",
                source: r"\s*(?P<message>([^\s:]+):\s([^ ]+)\s@\s(\d+\.\d+\.\d+))",
            },
        }
    }

    /// The table itself.
    pub fn definition(self) -> (d: Definition)
        ensures
            d == self.spec_definition(),
    {
        match self {
            PatternId::TargetProject => Definition {
                identifier: "TargetProject",
                description: "Target and project of a step",
                names: "target project",
                source: r"\(in\starget\s'(?P<target>.*)'\sfrom\sproject\s'(?P<project>.*)'\)",
            },
            PatternId::Analyze => Definition {
                identifier: "Analyze",
                description: "Analyze/AnalyzeShallow",
                names: "filepath filename target project",
                source: r"(?x)
      Analyze(?:Shallow)?\s
      # Filepath and filename
      ( ?P<filepath>.*/( ?P<filename>.*\.(?:mm|m|cc|cpp|c|cxx) ) )
      ( ?:\s.* \((?:in\starget\s      '(?P<target>.*)'\s  from\sproject\s   '(?P<project>.*)' )\)  ) ?",
            },
            PatternId::BuildTarget => Definition {
                identifier: "BuildTarget",
                description: "BUILD TARGET",
                names: "target project configuration",
                source: r"={3}\sBUILD\sTARGET\s(?P<target>.*)\sOF\sPROJECT\s(?P<project>.*)\sWITH.*CONFIGURATION\s(?P<configuration>.*)\s={3}",
            },
            PatternId::AggregateTarget => Definition {
                identifier: "AggregateTarget",
                description: "BUILD AGGREGATE TARGET",
                names: "target project configuration",
                source: r"={3}\sBUILD\sAGGREGATE\sTARGET\s(?P<target>.*)\sOF\sPROJECT\s(?P<project>.*)\sWITH.*CONFIGURATION\s(?P<configuration>.*)\s={3}",
            },
            PatternId::AnalyzeTarget => Definition {
                identifier: "AnalyzeTarget",
                description: "ANALYZE TARGET",
                names: "target project configuration",
                source: r"={3}\sANALYZE\sTARGET\s(?P<target>.*)\sOF\sPROJECT\s(?P<project>.*)\sWITH.*CONFIGURATION\s(?P<configuration>.*)\s={3}",
            },
            PatternId::ShellCommand => Definition {
                identifier: "ShellCommand",
                description: "Shell commands like cd setenv under a compile step",
                names: "command arguments",
                source: r"\s{4}(?P<command>cd|setenv|(?:[\w/:\s\-.]+?/)?[\w\-]+)\s(?P<arguments>.*)$",
            },
            PatternId::CleanRemove => Definition {
                identifier: "CleanRemove",
                description: "CLEAN REMOVE",
                names: "filepath filename",
                source: r"(?x)Clean.Remove\sclean\s
      # filepath and filename
      ( ?P<filepath>.*/ ( ?P<filename>.*\.(?:build) ))",
            },
            PatternId::CleanTarget => Definition {
                identifier: "CleanTarget",
                description: "CLEAN TARGET",
                names: "target project configuration",
                source: r"={3}\sCLEAN\sTARGET\s(?P<target>.*)\sOF\sPROJECT\s(?P<project>.*)\sWITH.*CONFIGURATION\s(?P<configuration>.*)\s={3}",
            },
            PatternId::CodeSign => Definition {
                identifier: "CodeSign",
                description: "CodeSign Phase",
                names: "filename target project",
                source: r"CodeSign\s(:?.*/(?P<filename>.*\.(?:app)))(?:\s.*\((?:in\starget\s'(?P<target>.*)'\sfrom\sproject\s'(?P<project>.*)')\))?",
            },
            PatternId::Compile => Definition {
                identifier: "Compile",
                description: r"Compile(Swift|C|\w) Step",
                names: "type filepath filename target project",
                source: r"(?x)
        # Compile <type>
        Compile(?P<type>[\w]+)\s.+?\s
        # <filepath>
        (?P<filepath>(?:\.|[^\s])+/(?P<filename>(?:\.|[^\s])+\.(?:m|mm|c|cc|cpp|cxx|swift)))
        (?:\s.*\((?:in\starget\s'(?P<target>.*)'\sfrom\sproject\s'(?P<project>.*)')\))?",
            },
            PatternId::CompileCommand => Definition {
                identifier: "CompileCommand",
                description: "Clang and swiftc command",
                names: "command arguments",
                source: r"\s{4}(:?[^\s]+/(?P<command>\w+))\s(?P<arguments>.*)",
            },
            PatternId::CompileXIB => Definition {
                identifier: "CompileXIB",
                description: "CompileXIB",
                names: "filepath filename target project",
                source: r"CompileXIB\s(?P<filepath>.*/(?P<filename>.*\.xib))(?:\s.*\((?:in\starget\s'(?P<target>.*)'\sfrom\sproject\s'(?P<project>.*)')\))?",
            },
            PatternId::CompileStoryboard => Definition {
                identifier: "CompileStoryboard",
                description: "CompileStoryboard",
                names: "filepath filename target project",
                source: r"CompileStoryboard\s(?P<filepath>.*/(?P<filename>[^/].*\.storyboard))(?:\s.*\((?:in\starget\s'(?P<target>.*)'\sfrom\sproject\s'(?P<project>.*)')\))?",
            },
            PatternId::CopyCommand => Definition {
                identifier: "CopyCommand",
                description: "CpResource|CpHeader|CopyStringsFile|CopyPlistFile",
                names: "type filepath filename target project",
                source: r"(?x)
               (:?Cp|Copy)(?P<type>Resource|Header|PlistFile|StringsFile)\s.*\s
               (?P<filepath>.*/(?P<filename>.*\.(?:\w+)))
               (?:\s.*\((?:in\starget\s'(?P<target>.*)'\sfrom\sproject\s'(?P<project>.*)')\))?",
            },
            PatternId::TestExecuted => Definition {
                identifier: "TestExecuted",
                description: "Executed number of tests",
                names: "tests_count failed_tests_count unexpected_test_count total_exec_time",
                source: r"(?x)\s*Executed\s
        (?P<tests_count>\d+)\stest[s]?,\swith\s
        (?P<failed_tests_count>\d+)\sfailure[s]?\s
        \((?P<unexpected_test_count>\d+)\sunexpected\)\sin\s\d+\.\d{3}\s
        \((?P<total_exec_time>\d+\.\d{3})\)\sseconds",
            },
            PatternId::TestExecutedWithSkipped => Definition {
                identifier: "TestExecutedWithSkipped",
                description: "Executed number of tests with skipped teats",
                names: "tests_count skipped_test_count failed_tests_count unexpected_test_count total_exec_time",
                source: r"(?x)
        \s*Executed\s
        (?P<tests_count>\d+)\stest[s]?,\swith\s
        (?P<skipped_test_count>\d+)\stest[s]?\sskipped\sand\s
        (?P<failed_tests_count>\d+)\sfailure[s]?\s
        \((?P<unexpected_test_count>\d+)\sunexpected\)\sin\s\d+\.\d{3}\s
        \((?P<total_exec_time>\d+\.\d{3})\)\sseconds",
            },
            PatternId::KiwiFailingTest => Definition {
                identifier: "KiwiFailingTest",
                description: "Kiwi Test failing",
                names: "filepath suite case reason",
                source: r"(?x)\s*
        (?P<filepath>.+:\d+):\serror:\s[\+\-]
        \[
          (?P<suite>.*)\s
          (?P<case>.*)
         \]\s:(?:\s'.*'\s\[FAILED\],)?\s
        (?P<reason>.*)",
            },
            PatternId::UIFailingTest => Definition {
                identifier: "UIFailingTest",
                description: "UI Test failing",
                names: "filepath reason",
                source: r"\s*t = \s+\d+\.\d+s\s+Assertion Failure: (?P<filepath>.*:\d+): (?P<reason>.*)$",
            },
            PatternId::CoverageReportGeneration => Definition {
                identifier: "CoverageReportGeneration",
                description: "Coverage report generation",
                names: "filepath",
                source: r"(?i)generated\s+coverage\s+report:\s+(?P<filepath>.+)",
            },
            PatternId::GenerateDsymFile => Definition {
                identifier: "GenerateDsymFile",
                description: "GenerateDSYMFile",
                names: "filename target project",
                source: r"(?x)
        GenerateDSYMFile\s/.*/
        (?P<filename>.*\.dSYM)\s/.*
        \((?:in\starget\s'(?P<target>.*)'\sfrom\sproject\s'(?P<project>.*)')\)?",
            },
            PatternId::Linking => Definition {
                identifier: "Linking",
                description: "Ld",
                names: "filepath filename target project",
                source: r"Ld\s(?P<filepath>.*/(?P<filename>\w+\.\w+)).*\((?:in\starget\s'(?P<target>.*)'\sfrom\sproject\s'(?P<project>.*)')\)?",
            },
            PatternId::TestSuiteStarted => Definition {
                identifier: "TestSuiteStarted",
                description: "Test Suites Started",
                names: "name time",
                source: r"\s*Test Suite '(?:.*/)?(?P<name>.*[ox]ctest.*)' started at (?P<time>.*)",
            },
            PatternId::TestSuiteCompleted => Definition {
                identifier: "TestSuiteCompleted",
                description: "Test Suites Completed",
                names: "name time",
                source: r"\s*Test Suite '(?:.*/)?(?P<name>.*[ox]ctest.*)' (finished|passed|failed) at (?P<time>.*)\.",
            },
            PatternId::TestCaseStarted => Definition {
                identifier: "TestCaseStarted",
                description: "Test Case Started",
                names: "suite case",
                source: r"\s*Test Case '-\[(?P<suite>.*) (?P<case>.*)\]' started.$",
            },
            PatternId::TestCasePassed => Definition {
                identifier: "TestCasePassed",
                description: "Test Case Passed",
                names: "suite case time",
                source: r"\s*Test Case\s'-\[(?P<suite>.*)\s(?P<case>.*)\]'\spassed\s\((?P<time>\d*\.\d{3})\sseconds\).",
            },
            PatternId::KiwiTestCasePending => Definition {
                identifier: "KiwiTestCasePending",
                description: "Kiwi test case pending",
                names: "suite case",
                source: r"Test Case\s'-\[(?P<suite>.*)\s(?P<case>.*)PENDING\]'\spassed",
            },
            PatternId::TestCaseMeasure => Definition {
                identifier: "TestCaseMeasure",
                description: "Test case measuring",
                names: "suite case time",
                source: r"[^:]*:[^:]*:\sTest Case\s'-\[(?P<suite>.*)\s(?P<case>.*)\]'\smeasured\s\[Time,\sseconds\]\saverage:\s(?P<time>\d*\.\d{3})(.*){4}",
            },
            PatternId::ParallelTestCasePassed => Definition {
                identifier: "ParallelTestCasePassed",
                description: "Parallel TestCase passed",
                names: "suite case medium time",
                source: r"Test\s+case\s+'(?P<suite>.*)\.(?P<case>.*)\(\)'\s+passed\s+on\s+'(?P<medium>.*)'\s+\((?P<time>\d*\.(.*){3})\s+seconds\)",
            },
            PatternId::ParallelTestCaseAppKitPassed => Definition {
                identifier: "ParallelTestCaseAppKitPassed",
                description: "Parallel TestCase AppKit Passed",
                names: "suite case medium time",
                source: r"\s*Test case\s'-\[(?P<suite>.*)\s(?P<case>.*)\]'\spassed\son\s'(?P<medium>.*)'\s\((?P<time>\d*\.\d{3})\sseconds\)",
            },
            PatternId::ParallelTestCaseFailed => Definition {
                identifier: "ParallelTestCaseFailed",
                description: "Parallel TestCase Failed",
                names: "suite case medium time",
                source: r"Test\s+case\s+'(?P<suite>.*)\.(?P<case>.*)\(\)'\s+failed\s+on\s+'(?P<medium>.*)'\s+\((?P<time>\d*\.(.*){3})\s+seconds\)",
            },
            PatternId::ParallelTestingStarted => Definition {
                identifier: "ParallelTestingStarted",
                description: "Parallel Testing Started",
                names: "medium",
                source: r"Testing\s+started\s+on\s+'(?P<medium>.*)'",
            },
            PatternId::ParallelTestingPassed => Definition {
                identifier: "ParallelTestingPassed",
                description: "Parallel Testing Passed",
                names: "medium",
                source: r"Testing\s+passed\s+on\s+'(?P<medium>.*)'",
            },
            PatternId::ParallelTestingFailed => Definition {
                identifier: "ParallelTestingFailed",
                description: "Parallel Testing Failed",
                names: "medium",
                source: r"Testing\s+failed\s+on\s+'(?P<medium>.*)'",
            },
            PatternId::ParallelTestFailed => Definition {
                identifier: "ParallelTestFailed",
                description: "Parallel Testing Failed",
                names: "suite medium",
                source: r"(?i)\s*Test\s+Suite\s+'(?P<suite>.*)'\s+started\s+on\s+'(?P<medium>.*)'",
            },
            PatternId::PhaseScriptExecution => Definition {
                identifier: "PhaseScriptExecution",
                description: "PhaseScriptExecution",
                names: "name target project",
                source: r"(?x)PhaseScriptExecution\s(?P<name>.*)\s/.*\.sh( ?:\s.* \((?:in\starget\s      '(?P<target>.*)'\s  from\sproject\s   '(?P<project>.*)' )\)  ) ?",
            },
            PatternId::ProcessPCH => Definition {
                identifier: "ProcessPCH",
                description: "ProcessPCH",
                names: "filename target project",
                source: r"(?x)ProcessPCH(?:\+\+)?\s.*\s/.*/(?P<filename>.*.pch)( ?:\s.* \((?:in\starget\s      '(?P<target>.*)'\s  from\sproject\s   '(?P<project>.*)' )\)  ) ?",
            },
            PatternId::ProcessPCHCommand => Definition {
                identifier: "ProcessPCHCommand",
                description: "ProcessPchCommand",
                names: "",
                source: r"\s*.*/usr/bin/clang\s.*\s\-c\s(.*.pch)\s.*\-o\s.*",
            },
            PatternId::PbxCopy => Definition {
                identifier: "PbxCopy",
                description: "PBXCp",
                names: "filepath target project",
                source: r"(?x)PBXCp\s(?P<filepath>/.*)\s/.*\((?:in\starget\s'(?P<target>.*)'\sfrom\sproject\s'(?P<project>.*)')\)",
            },
            PatternId::ProcessInfoPlistFile => Definition {
                identifier: "ProcessInfoPlistFile",
                description: "ProcessInfoPlistFile",
                names: "filepath filename target project",
                source: r"(?x)ProcessInfoPlistFile\s.*\s
        (?P<filepath>/(?:\.|[^\s])+/(?P<filename>(?:\.|[^\s])+\.(?:plist)))
        (?:\s.*\((?:in\starget\s'(?P<target>.*)'\sfrom\sproject\s'(?P<project>.*)')\))?",
            },
            PatternId::CheckDependencies => Definition {
                identifier: "CheckDependencies",
                description: "Check dependencies",
                names: "",
                source: "Check dependencies",
            },
            PatternId::RestartingTests => Definition {
                identifier: "RestartingTests",
                description: "Test restarting",
                names: "",
                source: "Restarting after unexpected exit.+$",
            },
            PatternId::CoverageDataGeneration => Definition {
                identifier: "CoverageDataGeneration",
                description: "Coverage Data Generation",
                names: "",
                source: r"generating\s+coverage\s+data\.*",
            },
            PatternId::PhaseSuccess => Definition {
                identifier: "PhaseSuccess",
                description: "Phase Success",
                names: "",
                source: r"\*\*\s(.*)\sSUCCEEDED\s\*\*",
            },
            PatternId::TestSuiteAllTestsPassed => Definition {
                identifier: "TestSuiteAllTestsPassed",
                description: "Test Suite All Tests Passed",
                names: "",
                source: r"\s*Test Suite 'All tests' passed at",
            },
            PatternId::TestSuiteAllTestsFailed => Definition {
                identifier: "TestSuiteAllTestsFailed",
                description: "Test Suite All Tests Passed",
                names: "",
                source: r"\s*Test Suite 'All tests' failed at",
            },
            PatternId::Touch => Definition {
                identifier: "Touch",
                description: "Touch file",
                names: "filepath filename target project",
                source: r"(?x)Touch\s(?P<filepath>/(?:\.|[^\s])+/(?P<filename>(?:\.|[^\s])+\.(?:\w+)))
        (?:\s.*\((?:in\starget\s'(?P<target>.*)'\sfrom\sproject\s'(?P<project>.*)')\))?",
            },
            PatternId::CompileWarning => Definition {
                identifier: "CompileWarning",
                description: "Compile Warning",
                names: "location filepath message",
                source: r"(?P<location>(?P<filepath>[^:]*):\d*:\d*):\swarning:\s(?P<message>.*)$",
            },
            PatternId::LdWarning => Definition {
                identifier: "LdWarning",
                description: "Linking Warning",
                names: "prefix message",
                source: "(?P<prefix>ld:.*)warning: (?P<message>.*)",
            },
            PatternId::GenericWarning => Definition {
                identifier: "GenericWarning",
                description: "Generic Error (catch all)",
                names: "message",
                source: r"warning:\s(?P<message>.*)$",
            },
            PatternId::CodeSignWarning => Definition {
                identifier: "CodeSignWarning",
                description: "Sign warnning",
                names: "message",
                source: "(?P<message>.* will not be code signed because .*)$",
            },
            PatternId::ClangError => Definition {
                identifier: "ClangError",
                description: "Clang Error",
                names: "message",
                source: "(?P<message>clang: error:.*)$",
            },
            PatternId::CheckDependenciesError => Definition {
                identifier: "CheckDependenciesError",
                description: "Check Dependencies error",
                names: "message",
                source: r"(?P<message>Code\s?Sign error:.*|Code signing is required for product type .* in SDK .*|No profile matching .* found:.*|Provisioning profile .* doesn't .*|Swift is unavailable on .*|.?Use Legacy Swift Language Version.*)$",
            },
            PatternId::ProvisioningProfileRequiredError => Definition {
                identifier: "ProvisioningProfileRequiredError",
                description: "General Check Depeds error",
                names: "message",
                source: "(?P<message>.*requires a provisioning profile.*)$",
            },
            PatternId::NoCertificateError => Definition {
                identifier: "NoCertificateError",
                description: "General Check Depeds error",
                names: "message",
                source: "(?P<message>No certificate matching.*)$",
            },
            PatternId::CompileError => Definition {
                identifier: "CompileError",
                description: "Compile Error",
                names: "location filepath message",
                source: r"\s*(?P<location>(?P<filepath>[^:]*):\d*:\d*):\s(?:fatal\s)?error:\s(?P<message>.*)$",
            },
            PatternId::Cursor => Definition {
                identifier: "Cursor",
                description: "Cursor",
                names: "content",
                source: r"(?P<content>[\s~]*\^[\s~]*)$",
            },
            PatternId::FatalError => Definition {
                identifier: "FatalError",
                description: "Compile Error",
                names: "message",
                source: "(?P<message>fatal error:.*)$",
            },
            PatternId::FileMissingError => Definition {
                identifier: "FileMissingError",
                description: "File missing Error",
                names: "message filepath",
                source: r"<unknown>:0:\s(?P<message>error:\s.*)\s'(?P<filepath>/.+/.*\..*)'$",
            },
            PatternId::LdError => Definition {
                identifier: "LdError",
                description: "Ld Error",
                names: "message",
                source: "(?P<message>ld:.*)",
            },
            PatternId::LinkerDuplicateSymbolsLocationError => Definition {
                identifier: "LinkerDuplicateSymbolsLocationError",
                description: "duplicate symbols location",
                names: "message",
                source: r"\s+(?P<message>/.*\.o[\)]?)$",
            },
            PatternId::LinkerDuplicateSymbolsError => Definition {
                identifier: "LinkerDuplicateSymbolsError",
                description: "Linker Duplicate Symbols Error",
                names: "message",
                source: "(?P<message>duplicate symbol .*):$",
            },
            PatternId::LinkerUndefinedSymbolsLocationError => Definition {
                identifier: "LinkerUndefinedSymbolsLocationError",
                description: "Linker Undefined Symbols Location Error",
                names: "message",
                source: r"(?P<message>.* in .*\.o)$",
            },
            PatternId::PodsError => Definition {
                identifier: "PodsError",
                description: "Pods error",
                names: "message",
                source: r"(?P<message>error:\s.*)",
            },
            PatternId::SymbolReferencedFrom => Definition {
                identifier: "SymbolReferencedFrom",
                description: "Symbol reference from error",
                names: "message",
                source: r#"\s+"(?P<message>.*)", referenced from:$"#,
            },
            PatternId::ModuleIncludesError => Definition {
                identifier: "ModuleIncludesError",
                description: "module includes error",
                names: "message",
                source: r"<module-includes>:.*?:.*?:\s(?:fatal\s)?(?P<message>error:\s.*)$",
            },
            PatternId::UndefinedSymbolLocationError => Definition {
                identifier: "UndefinedSymbolLocationError",
                description: "Undefined symol location",
                names: "message",
                source: r"(?P<message>.+ in (.+)\((.+)\.o\))$",
            },
            PatternId::PackageGraphResolvingStart => Definition {
                identifier: "PackageGraphResolvingStart",
                description: "Package Graph Resolving Start",
                names: "message",
                source: r"\s*(?P<message>Resolve Package Graph)\s*$",
            },
            PatternId::PackageGraphResolvingEnd => Definition {
                identifier: "PackageGraphResolvingEnd",
                description: "Package Graph Resolving Ended",
                names: "message",
                source: "(?P<message>Resolved source packages):$",
            },
            PatternId::PackageGraphResolvedItem => Definition {
                identifier: "PackageGraphResolvedItem",
                description: "Package Graph Resolved Item",
                names: "message",
                source: r"\s*(?P<message>([^\s:]+):\s([^ ]+)\s@\s(\d+\.\d+\.\d+))",
            },
        }
    }

    /// The names of the pattern's capture groups, in the order of the table.
    pub open spec fn spec_names(self) -> Seq<Seq<char>> {
        tokens(self.spec_definition().names@)
    }

    /// The pattern's regular expression.
    pub open spec fn spec_source(self) -> Seq<char> {
        self.spec_definition().source@
    }
}

/// Every pattern has its place in the table.
pub proof fn lemma_position_bound(id: PatternId)
    ensures
        id.spec_position() < PATTERN_COUNT,
{
}

/// No two patterns share a place in the table.
pub proof fn lemma_position_injective(a: PatternId, b: PatternId)
    requires
        a.spec_position() == b.spec_position(),
    ensures
        a == b,
{
}

} // verus!
