//! The step kinds that carry fields: their keywords and the layout of their
//! header lines.

use vstd::prelude::*;
use crate::registry::table::PatternId;
use crate::text::str_eq;

verus! {

/// The step kinds that carry fields of their own.
#[derive(Clone, Copy, Debug, PartialEq, Eq, Structural)]
pub enum StepKind {
    Invocation,
    CompileSwift,
    CompileSwiftSources,
    CompileC,
    CodeSign,
    CompileAssetCatalog,
    CompileStoryboard,
    CompileXIB,
    PrecompileSwiftBridgingHeader,
    CopySwiftLibs,
    Ld,
    RegisterExecutionPolicyException,
    CopyResource,
    CreateBuildDirectory,
    GenerateDSYMFile,
    LinkStoryboards,
    MergeSwiftModule,
    EmitSwiftModule,
    ScriptExecution,
    ProcessInfoPlistFile,
    ProcessProductPackaging,
    Validate,
}

/// The positional fields of a header line.
#[derive(Clone, Copy, Debug, PartialEq, Eq, Structural)]
pub enum Field {
    OutputPath,
    Path,
    Arch,
    Lang,
    Compiler,
}

impl Field {
    /// The name of the field, as the steps spell it.
    pub fn name(self) -> (r: &'static str)
        ensures
            r == self.spec_name(),
    {
        match self {
            Field::OutputPath => "output_path",
            Field::Path => "path",
            Field::Arch => "arch",
            Field::Lang => "lang",
            Field::Compiler => "compiler",
        }
    }

    /// The name of the field, as the steps spell it.
    pub open spec fn spec_name(self) -> &'static str {
        match self {
            Field::OutputPath => "output_path",
            Field::Path => "path",
            Field::Arch => "arch",
            Field::Lang => "lang",
            Field::Compiler => "compiler",
        }
    }
}

impl StepKind {
    /// The first token of the header lines of this kind.
    pub open spec fn spec_keyword(self) -> &'static str {
        match self {
            StepKind::Invocation => "Command",
            StepKind::CompileSwift => "CompileSwift",
            StepKind::CompileSwiftSources => "CompileSwiftSources",
            StepKind::CompileC => "CompileC",
            StepKind::CodeSign => "CodeSign",
            StepKind::CompileAssetCatalog => "CompileAssetCatalog",
            StepKind::CompileStoryboard => "CompileStoryboard",
            StepKind::CompileXIB => "CompileXIB",
            StepKind::PrecompileSwiftBridgingHeader => "PrecompileSwiftBridgingHeader",
            StepKind::CopySwiftLibs => "CopySwiftLibs",
            StepKind::Ld => "Ld",
            StepKind::RegisterExecutionPolicyException => "RegisterExecutionPolicyException",
            StepKind::CopyResource => "CpResource",
            StepKind::CreateBuildDirectory => "CreateBuildDirectory",
            StepKind::GenerateDSYMFile => "GenerateDSYMFile",
            StepKind::LinkStoryboards => "LinkStoryboards",
            StepKind::MergeSwiftModule => "MergeSwiftModule",
            StepKind::EmitSwiftModule => "EmitSwiftModule",
            StepKind::ScriptExecution => "PhaseScriptExecution",
            StepKind::ProcessInfoPlistFile => "ProcessInfoPlistFile",
            StepKind::ProcessProductPackaging => "ProcessProductPackaging",
            StepKind::Validate => "Validate",
        }
    }

    /// The first token of the header lines of this kind.
    pub fn keyword(self) -> (r: &'static str)
        ensures
            r == self.spec_keyword(),
    {
        match self {
            StepKind::Invocation => "Command",
            StepKind::CompileSwift => "CompileSwift",
            StepKind::CompileSwiftSources => "CompileSwiftSources",
            StepKind::CompileC => "CompileC",
            StepKind::CodeSign => "CodeSign",
            StepKind::CompileAssetCatalog => "CompileAssetCatalog",
            StepKind::CompileStoryboard => "CompileStoryboard",
            StepKind::CompileXIB => "CompileXIB",
            StepKind::PrecompileSwiftBridgingHeader => "PrecompileSwiftBridgingHeader",
            StepKind::CopySwiftLibs => "CopySwiftLibs",
            StepKind::Ld => "Ld",
            StepKind::RegisterExecutionPolicyException => "RegisterExecutionPolicyException",
            StepKind::CopyResource => "CpResource",
            StepKind::CreateBuildDirectory => "CreateBuildDirectory",
            StepKind::GenerateDSYMFile => "GenerateDSYMFile",
            StepKind::LinkStoryboards => "LinkStoryboards",
            StepKind::MergeSwiftModule => "MergeSwiftModule",
            StepKind::EmitSwiftModule => "EmitSwiftModule",
            StepKind::ScriptExecution => "PhaseScriptExecution",
            StepKind::ProcessInfoPlistFile => "ProcessInfoPlistFile",
            StepKind::ProcessProductPackaging => "ProcessProductPackaging",
            StepKind::Validate => "Validate",
        }
    }

    /// The kind whose header lines start with `keyword`, if there is one.
    pub open spec fn spec_from_keyword(keyword: Seq<char>) -> Option<StepKind> {
        if keyword == "Command"@ {
            Some(StepKind::Invocation)
        } else if keyword == "CompileSwift"@ {
            Some(StepKind::CompileSwift)
        } else if keyword == "CompileSwiftSources"@ {
            Some(StepKind::CompileSwiftSources)
        } else if keyword == "CompileC"@ {
            Some(StepKind::CompileC)
        } else if keyword == "CodeSign"@ {
            Some(StepKind::CodeSign)
        } else if keyword == "CompileAssetCatalog"@ {
            Some(StepKind::CompileAssetCatalog)
        } else if keyword == "CompileStoryboard"@ {
            Some(StepKind::CompileStoryboard)
        } else if keyword == "CompileXIB"@ {
            Some(StepKind::CompileXIB)
        } else if keyword == "PrecompileSwiftBridgingHeader"@ {
            Some(StepKind::PrecompileSwiftBridgingHeader)
        } else if keyword == "CopySwiftLibs"@ {
            Some(StepKind::CopySwiftLibs)
        } else if keyword == "Ld"@ {
            Some(StepKind::Ld)
        } else if keyword == "RegisterExecutionPolicyException"@ {
            Some(StepKind::RegisterExecutionPolicyException)
        } else if keyword == "CpResource"@ {
            Some(StepKind::CopyResource)
        } else if keyword == "CreateBuildDirectory"@ {
            Some(StepKind::CreateBuildDirectory)
        } else if keyword == "GenerateDSYMFile"@ {
            Some(StepKind::GenerateDSYMFile)
        } else if keyword == "LinkStoryboards"@ {
            Some(StepKind::LinkStoryboards)
        } else if keyword == "MergeSwiftModule"@ {
            Some(StepKind::MergeSwiftModule)
        } else if keyword == "EmitSwiftModule"@ {
            Some(StepKind::EmitSwiftModule)
        } else if keyword == "PhaseScriptExecution"@ {
            Some(StepKind::ScriptExecution)
        } else if keyword == "ProcessInfoPlistFile"@ {
            Some(StepKind::ProcessInfoPlistFile)
        } else if keyword == "ProcessProductPackaging"@ {
            Some(StepKind::ProcessProductPackaging)
        } else if keyword == "Validate"@ {
            Some(StepKind::Validate)
        } else {
            None
        }
    }

    /// The kind whose header lines start with `keyword`, if there is one.
    pub fn from_keyword(keyword: &str) -> (r: Option<StepKind>)
        ensures
            r == StepKind::spec_from_keyword(keyword@),
    {
        if str_eq(keyword, "Command") {
            Some(StepKind::Invocation)
        } else if str_eq(keyword, "CompileSwift") {
            Some(StepKind::CompileSwift)
        } else if str_eq(keyword, "CompileSwiftSources") {
            Some(StepKind::CompileSwiftSources)
        } else if str_eq(keyword, "CompileC") {
            Some(StepKind::CompileC)
        } else if str_eq(keyword, "CodeSign") {
            Some(StepKind::CodeSign)
        } else if str_eq(keyword, "CompileAssetCatalog") {
            Some(StepKind::CompileAssetCatalog)
        } else if str_eq(keyword, "CompileStoryboard") {
            Some(StepKind::CompileStoryboard)
        } else if str_eq(keyword, "CompileXIB") {
            Some(StepKind::CompileXIB)
        } else if str_eq(keyword, "PrecompileSwiftBridgingHeader") {
            Some(StepKind::PrecompileSwiftBridgingHeader)
        } else if str_eq(keyword, "CopySwiftLibs") {
            Some(StepKind::CopySwiftLibs)
        } else if str_eq(keyword, "Ld") {
            Some(StepKind::Ld)
        } else if str_eq(keyword, "RegisterExecutionPolicyException") {
            Some(StepKind::RegisterExecutionPolicyException)
        } else if str_eq(keyword, "CpResource") {
            Some(StepKind::CopyResource)
        } else if str_eq(keyword, "CreateBuildDirectory") {
            Some(StepKind::CreateBuildDirectory)
        } else if str_eq(keyword, "GenerateDSYMFile") {
            Some(StepKind::GenerateDSYMFile)
        } else if str_eq(keyword, "LinkStoryboards") {
            Some(StepKind::LinkStoryboards)
        } else if str_eq(keyword, "MergeSwiftModule") {
            Some(StepKind::MergeSwiftModule)
        } else if str_eq(keyword, "EmitSwiftModule") {
            Some(StepKind::EmitSwiftModule)
        } else if str_eq(keyword, "PhaseScriptExecution") {
            Some(StepKind::ScriptExecution)
        } else if str_eq(keyword, "ProcessInfoPlistFile") {
            Some(StepKind::ProcessInfoPlistFile)
        } else if str_eq(keyword, "ProcessProductPackaging") {
            Some(StepKind::ProcessProductPackaging)
        } else if str_eq(keyword, "Validate") {
            Some(StepKind::Validate)
        } else {
            None
        }
    }

    /// The positional fields of a header of this kind, left to right, each with
    /// the index of its token among the tokens of the header tail: token 0 is
    /// the first token behind the keyword.
    pub open spec fn spec_layout(self) -> Seq<(Field, usize)> {
        match self {
            StepKind::Invocation => Seq::empty(),
            StepKind::CompileSwift => seq![(Field::Arch, 1usize), (Field::Path, 2usize)],
            StepKind::CompileSwiftSources => seq![(Field::Arch, 1usize), (Field::Compiler, 2usize)],
            StepKind::CompileC => seq![(Field::OutputPath, 0usize), (Field::Path, 1usize), (Field::Arch, 3usize), (Field::Lang, 4usize), (Field::Compiler, 5usize)],
            StepKind::CodeSign => seq![(Field::Path, 0usize)],
            StepKind::CompileAssetCatalog => seq![(Field::OutputPath, 0usize), (Field::Path, 1usize)],
            StepKind::CompileStoryboard => seq![(Field::Path, 0usize)],
            StepKind::CompileXIB => seq![(Field::Path, 0usize)],
            StepKind::PrecompileSwiftBridgingHeader => seq![(Field::Arch, 1usize)],
            StepKind::CopySwiftLibs => seq![(Field::Path, 0usize)],
            StepKind::Ld => seq![(Field::Path, 0usize), (Field::Arch, 2usize)],
            StepKind::RegisterExecutionPolicyException => seq![(Field::Path, 0usize)],
            StepKind::CopyResource => seq![(Field::OutputPath, 0usize), (Field::Path, 1usize)],
            StepKind::CreateBuildDirectory => seq![(Field::Path, 0usize)],
            StepKind::GenerateDSYMFile => seq![(Field::OutputPath, 0usize), (Field::Path, 1usize)],
            StepKind::LinkStoryboards => Seq::empty(),
            StepKind::MergeSwiftModule => seq![(Field::Arch, 1usize)],
            StepKind::EmitSwiftModule => seq![(Field::Arch, 1usize)],
            StepKind::ScriptExecution => Seq::empty(),
            StepKind::ProcessInfoPlistFile => seq![(Field::OutputPath, 0usize), (Field::Path, 1usize)],
            StepKind::ProcessProductPackaging => seq![(Field::Path, 1usize)],
            StepKind::Validate => seq![(Field::Path, 0usize)],
        }
    }

    /// The positional fields of a header of this kind, left to right, each with
    /// the index of its token among the tokens of the header tail.
    pub fn layout(self) -> (r: Vec<(Field, usize)>)
        ensures
            r@ == self.spec_layout(),
    {
        match self {
            StepKind::Invocation => Vec::new(),
            StepKind::CompileSwift => vec![(Field::Arch, 1usize), (Field::Path, 2usize)],
            StepKind::CompileSwiftSources => vec![(Field::Arch, 1usize), (Field::Compiler, 2usize)],
            StepKind::CompileC => vec![(Field::OutputPath, 0usize), (Field::Path, 1usize), (Field::Arch, 3usize), (Field::Lang, 4usize), (Field::Compiler, 5usize)],
            StepKind::CodeSign => vec![(Field::Path, 0usize)],
            StepKind::CompileAssetCatalog => vec![(Field::OutputPath, 0usize), (Field::Path, 1usize)],
            StepKind::CompileStoryboard => vec![(Field::Path, 0usize)],
            StepKind::CompileXIB => vec![(Field::Path, 0usize)],
            StepKind::PrecompileSwiftBridgingHeader => vec![(Field::Arch, 1usize)],
            StepKind::CopySwiftLibs => vec![(Field::Path, 0usize)],
            StepKind::Ld => vec![(Field::Path, 0usize), (Field::Arch, 2usize)],
            StepKind::RegisterExecutionPolicyException => vec![(Field::Path, 0usize)],
            StepKind::CopyResource => vec![(Field::OutputPath, 0usize), (Field::Path, 1usize)],
            StepKind::CreateBuildDirectory => vec![(Field::Path, 0usize)],
            StepKind::GenerateDSYMFile => vec![(Field::OutputPath, 0usize), (Field::Path, 1usize)],
            StepKind::LinkStoryboards => Vec::new(),
            StepKind::MergeSwiftModule => vec![(Field::Arch, 1usize)],
            StepKind::EmitSwiftModule => vec![(Field::Arch, 1usize)],
            StepKind::ScriptExecution => Vec::new(),
            StepKind::ProcessInfoPlistFile => vec![(Field::OutputPath, 0usize), (Field::Path, 1usize)],
            StepKind::ProcessProductPackaging => vec![(Field::Path, 1usize)],
            StepKind::Validate => vec![(Field::Path, 0usize)],
        }
    }

    /// The registry pattern that recovers a name from a header line of this
    /// kind, with the group that holds it. The pattern is written for the whole
    /// header line, keyword and all.
    pub open spec fn spec_name_source(self) -> Option<(PatternId, &'static str)> {
        match self {
            StepKind::CompileSwift => Some((PatternId::Compile, "filename")),
            StepKind::CodeSign => Some((PatternId::CodeSign, "filename")),
            StepKind::CompileStoryboard => Some((PatternId::CompileStoryboard, "filename")),
            StepKind::CompileXIB => Some((PatternId::CompileXIB, "filename")),
            StepKind::Ld => Some((PatternId::Linking, "filename")),
            StepKind::CopyResource => Some((PatternId::CopyCommand, "filename")),
            StepKind::GenerateDSYMFile => Some((PatternId::GenerateDsymFile, "filename")),
            StepKind::ScriptExecution => Some((PatternId::PhaseScriptExecution, "name")),
            StepKind::ProcessInfoPlistFile => Some((PatternId::ProcessInfoPlistFile, "filename")),
            _ => None,
        }
    }

    /// The registry pattern that recovers a name from a header line of this
    /// kind, with the group that holds it. The pattern is written for the whole
    /// header line, keyword and all.
    pub fn name_source(self) -> (r: Option<(PatternId, &'static str)>)
        ensures
            r == self.spec_name_source(),
    {
        match self {
            StepKind::CompileSwift => Some((PatternId::Compile, "filename")),
            StepKind::CodeSign => Some((PatternId::CodeSign, "filename")),
            StepKind::CompileStoryboard => Some((PatternId::CompileStoryboard, "filename")),
            StepKind::CompileXIB => Some((PatternId::CompileXIB, "filename")),
            StepKind::Ld => Some((PatternId::Linking, "filename")),
            StepKind::CopyResource => Some((PatternId::CopyCommand, "filename")),
            StepKind::GenerateDSYMFile => Some((PatternId::GenerateDsymFile, "filename")),
            StepKind::ScriptExecution => Some((PatternId::PhaseScriptExecution, "name")),
            StepKind::ProcessInfoPlistFile => Some((PatternId::ProcessInfoPlistFile, "filename")),
            _ => None,
        }
    }

    /// Whether a block of this kind is read up to its blank line. The other
    /// kinds are complete with their header line.
    pub open spec fn spec_has_block(self) -> bool {
        match self {
            StepKind::RegisterExecutionPolicyException => false,
            StepKind::LinkStoryboards => false,
            _ => true,
        }
    }

    /// Whether a block of this kind is read up to its blank line.
    pub fn has_block(self) -> (r: bool)
        ensures
            r == self.spec_has_block(),
    {
        match self {
            StepKind::RegisterExecutionPolicyException => false,
            StepKind::LinkStoryboards => false,
            _ => true,
        }
    }
}

} // verus!
