//! Build steps: the records that the parser produces.

pub mod diagnostic;
pub mod kind;
pub mod record;

use vstd::prelude::*;
use crate::error::ParseError;
use crate::outputs::{
    CodeSign, CompileAssetCatalog, CompileC, CompileStoryboard, CompileSwift,
    CompileSwiftSources, CompileXIB, CopyResource, CopySwiftLibs, CreateBuildDirectory,
    EmitSwiftModule, GenerateDSYMFile, Invocation, Ld, LinkStoryboards, MergeSwiftModule,
    PrecompileSwiftBridgingHeader, ProcessInfoPlistFile, ProcessProductPackaging,
    RegisterExecutionPolicyException, ScriptExecution, Validate,
};
use crate::registry::Registry;
use crate::step::diagnostic::{Diagnostic, DiagnosticView};
use crate::step::kind::StepKind;
use crate::step::record::{header_record, Record};

verus! {

/// One structured record of a build action, a marker or a diagnostic.
#[derive(Debug)]
pub enum Step {
    Invocation(Invocation),
    CompileSwift(CompileSwift),
    CompileSwiftSources(CompileSwiftSources),
    CompileC(CompileC),
    CodeSign(CodeSign),
    CompileAssetCatalog(CompileAssetCatalog),
    CompileStoryboard(CompileStoryboard),
    CompileXIB(CompileXIB),
    PrecompileSwiftBridgingHeader(PrecompileSwiftBridgingHeader),
    CopySwiftLibs(CopySwiftLibs),
    Ld(Ld),
    RegisterExecutionPolicyException(RegisterExecutionPolicyException),
    CopyResource(CopyResource),
    CreateBuildDirectory(CreateBuildDirectory),
    GenerateDSYMFile(GenerateDSYMFile),
    LinkStoryboards(LinkStoryboards),
    MergeSwiftModule(MergeSwiftModule),
    EmitSwiftModule(EmitSwiftModule),
    ScriptExecution(ScriptExecution),
    ProcessInfoPlistFile(ProcessInfoPlistFile),
    ProcessProductPackaging(ProcessProductPackaging),
    Validate(Validate),
    /// The build system is planning the build.
    Planning,
    /// The build runs under the new build system.
    NewBuildSystem,
    /// A free-form note.
    Note(String),
    BuildSucceed,
    BuildFailed,
    CleanSucceed,
    TestSucceed,
    TestFailed,
    /// A compile error found inside a block.
    Error(Diagnostic),
    /// A compile warning found inside a block.
    Warning(Diagnostic),
}

/// What a step stands for.
pub enum StepView {
    /// A step of one of the kinds that carry fields.
    Action(Record),
    Planning,
    NewBuildSystem,
    Note(Seq<char>),
    BuildSucceed,
    BuildFailed,
    CleanSucceed,
    TestSucceed,
    TestFailed,
    Error(DiagnosticView),
    Warning(DiagnosticView),
}

impl StepView {
    /// The step with `command` for its command, where it has one.
    pub open spec fn with_command(self, command: Seq<char>) -> StepView {
        match self {
            StepView::Action(record) => StepView::Action(record.with_command(command)),
            other => other,
        }
    }
}

impl View for Step {
    type V = StepView;

    open spec fn view(&self) -> StepView {
        match self {
            Step::Invocation(step) => StepView::Action(step@),
            Step::CompileSwift(step) => StepView::Action(step@),
            Step::CompileSwiftSources(step) => StepView::Action(step@),
            Step::CompileC(step) => StepView::Action(step@),
            Step::CodeSign(step) => StepView::Action(step@),
            Step::CompileAssetCatalog(step) => StepView::Action(step@),
            Step::CompileStoryboard(step) => StepView::Action(step@),
            Step::CompileXIB(step) => StepView::Action(step@),
            Step::PrecompileSwiftBridgingHeader(step) => StepView::Action(step@),
            Step::CopySwiftLibs(step) => StepView::Action(step@),
            Step::Ld(step) => StepView::Action(step@),
            Step::RegisterExecutionPolicyException(step) => StepView::Action(step@),
            Step::CopyResource(step) => StepView::Action(step@),
            Step::CreateBuildDirectory(step) => StepView::Action(step@),
            Step::GenerateDSYMFile(step) => StepView::Action(step@),
            Step::LinkStoryboards(step) => StepView::Action(step@),
            Step::MergeSwiftModule(step) => StepView::Action(step@),
            Step::EmitSwiftModule(step) => StepView::Action(step@),
            Step::ScriptExecution(step) => StepView::Action(step@),
            Step::ProcessInfoPlistFile(step) => StepView::Action(step@),
            Step::ProcessProductPackaging(step) => StepView::Action(step@),
            Step::Validate(step) => StepView::Action(step@),
            Step::Planning => StepView::Planning,
            Step::NewBuildSystem => StepView::NewBuildSystem,
            Step::Note(text) => StepView::Note(text@),
            Step::BuildSucceed => StepView::BuildSucceed,
            Step::BuildFailed => StepView::BuildFailed,
            Step::CleanSucceed => StepView::CleanSucceed,
            Step::TestSucceed => StepView::TestSucceed,
            Step::TestFailed => StepView::TestFailed,
            Step::Error(diagnostic) => StepView::Error(diagnostic@),
            Step::Warning(diagnostic) => StepView::Warning(diagnostic@),
        }
    }
}

/// The views of a sequence of steps.
pub open spec fn step_views(steps: Seq<Step>) -> Seq<StepView> {
    Seq::new(steps.len(), |i: int| steps[i]@)
}

/// What reading a header tail yields, as a step.
pub open spec fn header_step(kind: StepKind, line: Seq<char>) -> Result<StepView, ParseError> {
    match header_record(kind, line) {
        Ok(record) => Ok(StepView::Action(record)),
        Err(e) => Err(e),
    }
}

/// The view of the outcome of reading a header tail as a step.
pub open spec fn step_result_view(r: Result<Step, ParseError>) -> Result<StepView, ParseError> {
    match r {
        Ok(step) => Ok(step@),
        Err(e) => Err(e),
    }
}

impl Step {
    /// Reads `line`, the tail of a header of `kind`.
    pub fn from_header(kind: StepKind, line: &str, registry: &Registry) -> (r: Result<
        Step,
        ParseError,
    >)
        ensures
            step_result_view(r) == header_step(kind, line@),
    {
        match kind {
            StepKind::Invocation => match Invocation::new(line, registry) {
                Ok(step) => Ok(Step::Invocation(step)),
                Err(e) => Err(e),
            },
            StepKind::CompileSwift => match CompileSwift::new(line, registry) {
                Ok(step) => Ok(Step::CompileSwift(step)),
                Err(e) => Err(e),
            },
            StepKind::CompileSwiftSources => match CompileSwiftSources::new(line, registry) {
                Ok(step) => Ok(Step::CompileSwiftSources(step)),
                Err(e) => Err(e),
            },
            StepKind::CompileC => match CompileC::new(line, registry) {
                Ok(step) => Ok(Step::CompileC(step)),
                Err(e) => Err(e),
            },
            StepKind::CodeSign => match CodeSign::new(line, registry) {
                Ok(step) => Ok(Step::CodeSign(step)),
                Err(e) => Err(e),
            },
            StepKind::CompileAssetCatalog => match CompileAssetCatalog::new(line, registry) {
                Ok(step) => Ok(Step::CompileAssetCatalog(step)),
                Err(e) => Err(e),
            },
            StepKind::CompileStoryboard => match CompileStoryboard::new(line, registry) {
                Ok(step) => Ok(Step::CompileStoryboard(step)),
                Err(e) => Err(e),
            },
            StepKind::CompileXIB => match CompileXIB::new(line, registry) {
                Ok(step) => Ok(Step::CompileXIB(step)),
                Err(e) => Err(e),
            },
            StepKind::PrecompileSwiftBridgingHeader => match PrecompileSwiftBridgingHeader::new(line, registry) {
                Ok(step) => Ok(Step::PrecompileSwiftBridgingHeader(step)),
                Err(e) => Err(e),
            },
            StepKind::CopySwiftLibs => match CopySwiftLibs::new(line, registry) {
                Ok(step) => Ok(Step::CopySwiftLibs(step)),
                Err(e) => Err(e),
            },
            StepKind::Ld => match Ld::new(line, registry) {
                Ok(step) => Ok(Step::Ld(step)),
                Err(e) => Err(e),
            },
            StepKind::RegisterExecutionPolicyException => match RegisterExecutionPolicyException::new(line, registry) {
                Ok(step) => Ok(Step::RegisterExecutionPolicyException(step)),
                Err(e) => Err(e),
            },
            StepKind::CopyResource => match CopyResource::new(line, registry) {
                Ok(step) => Ok(Step::CopyResource(step)),
                Err(e) => Err(e),
            },
            StepKind::CreateBuildDirectory => match CreateBuildDirectory::new(line, registry) {
                Ok(step) => Ok(Step::CreateBuildDirectory(step)),
                Err(e) => Err(e),
            },
            StepKind::GenerateDSYMFile => match GenerateDSYMFile::new(line, registry) {
                Ok(step) => Ok(Step::GenerateDSYMFile(step)),
                Err(e) => Err(e),
            },
            StepKind::LinkStoryboards => match LinkStoryboards::new(line, registry) {
                Ok(step) => Ok(Step::LinkStoryboards(step)),
                Err(e) => Err(e),
            },
            StepKind::MergeSwiftModule => match MergeSwiftModule::new(line, registry) {
                Ok(step) => Ok(Step::MergeSwiftModule(step)),
                Err(e) => Err(e),
            },
            StepKind::EmitSwiftModule => match EmitSwiftModule::new(line, registry) {
                Ok(step) => Ok(Step::EmitSwiftModule(step)),
                Err(e) => Err(e),
            },
            StepKind::ScriptExecution => match ScriptExecution::new(line, registry) {
                Ok(step) => Ok(Step::ScriptExecution(step)),
                Err(e) => Err(e),
            },
            StepKind::ProcessInfoPlistFile => match ProcessInfoPlistFile::new(line, registry) {
                Ok(step) => Ok(Step::ProcessInfoPlistFile(step)),
                Err(e) => Err(e),
            },
            StepKind::ProcessProductPackaging => match ProcessProductPackaging::new(line, registry) {
                Ok(step) => Ok(Step::ProcessProductPackaging(step)),
                Err(e) => Err(e),
            },
            StepKind::Validate => match Validate::new(line, registry) {
                Ok(step) => Ok(Step::Validate(step)),
                Err(e) => Err(e),
            },
        }
    }

    /// The step with `command` for its command, where it has one.
    pub fn with_command(self, command: String) -> (r: Step)
        ensures
            r@ == self@.with_command(command@),
    {
        match self {
            Step::Invocation(step) => Step::Invocation(Invocation { command, ..step }),
            Step::CompileSwift(step) => Step::CompileSwift(CompileSwift { command, ..step }),
            Step::CompileSwiftSources(step) => Step::CompileSwiftSources(CompileSwiftSources { command, ..step }),
            Step::CompileC(step) => Step::CompileC(CompileC { command, ..step }),
            Step::CodeSign(step) => Step::CodeSign(CodeSign { command, ..step }),
            Step::CompileAssetCatalog(step) => Step::CompileAssetCatalog(CompileAssetCatalog { command, ..step }),
            Step::CompileStoryboard(step) => Step::CompileStoryboard(CompileStoryboard { command, ..step }),
            Step::CompileXIB(step) => Step::CompileXIB(CompileXIB { command, ..step }),
            Step::PrecompileSwiftBridgingHeader(step) => Step::PrecompileSwiftBridgingHeader(PrecompileSwiftBridgingHeader { command, ..step }),
            Step::CopySwiftLibs(step) => Step::CopySwiftLibs(CopySwiftLibs { command, ..step }),
            Step::Ld(step) => Step::Ld(Ld { command, ..step }),
            Step::CopyResource(step) => Step::CopyResource(CopyResource { command, ..step }),
            Step::CreateBuildDirectory(step) => Step::CreateBuildDirectory(CreateBuildDirectory { command, ..step }),
            Step::GenerateDSYMFile(step) => Step::GenerateDSYMFile(GenerateDSYMFile { command, ..step }),
            Step::MergeSwiftModule(step) => Step::MergeSwiftModule(MergeSwiftModule { command, ..step }),
            Step::EmitSwiftModule(step) => Step::EmitSwiftModule(EmitSwiftModule { command, ..step }),
            Step::ScriptExecution(step) => Step::ScriptExecution(ScriptExecution { command, ..step }),
            Step::ProcessInfoPlistFile(step) => Step::ProcessInfoPlistFile(ProcessInfoPlistFile { command, ..step }),
            Step::ProcessProductPackaging(step) => Step::ProcessProductPackaging(ProcessProductPackaging { command, ..step }),
            Step::Validate(step) => Step::Validate(Validate { command, ..step }),
            other => other,
        }
    }
}

} // verus!
