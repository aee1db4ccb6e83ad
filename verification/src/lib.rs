//! Turns the line-oriented output of `xcodebuild` into typed build steps.
//!
//! The output comes in blocks: a header line whose first word names an
//! action, then indented lines, then a blank line. [`parse_step_from_stream`]
//! takes one header line and a source of further lines and returns the steps
//! of the block, leaving the source right behind it. The fields that a header
//! names by position are read by splitting it at whitespace; the descriptive
//! ones are recovered with the patterns of the [`Registry`].

pub mod block;
pub mod description;
pub mod error;
pub mod laws;
pub mod outputs;
pub mod parser;
pub mod registry;
pub mod step;
pub mod stream;
pub mod text;

pub use block::{Block, Progress};
pub use description::Description;
pub use error::ParseError;
pub use outputs::{
    CodeSign, CompileAssetCatalog, CompileC, CompileStoryboard, CompileSwift, CompileSwiftSources,
    CompileXIB, CopyResource, CopySwiftLibs, CreateBuildDirectory, EmitSwiftModule,
    GenerateDSYMFile, Invocation, Ld, LinkStoryboards, MergeSwiftModule,
    PrecompileSwiftBridgingHeader, ProcessInfoPlistFile, ProcessProductPackaging,
    RegisterExecutionPolicyException, ScriptExecution, Validate,
};
pub use parser::{parse_step_from_stream, ParsableFromStream};
pub use registry::Registry;
pub use step::Step;
pub use stream::OutputStream;
