//! One type for each step kind that carries fields.

pub mod code_sign;
pub mod compile_asset_catalog;
pub mod compile_c;
pub mod compile_storyboard;
pub mod compile_swift;
pub mod compile_swift_sources;
pub mod compile_xib;
pub mod copy_resource;
pub mod copy_swiftlibs;
pub mod create_build_directory;
pub mod emit_swift_module;
pub mod generate_dsym_file;
pub mod invocation;
pub mod ld;
pub mod link_storyboards;
pub mod merge_swift_module;
pub mod precompile_swift_bridging_header;
pub mod process_info_plist_file;
pub mod process_product_packaging;
pub mod register_execution_policy_exception;
pub mod script_execution;
pub mod validate;

pub use code_sign::CodeSign;
pub use compile_asset_catalog::CompileAssetCatalog;
pub use compile_c::CompileC;
pub use compile_storyboard::CompileStoryboard;
pub use compile_swift::CompileSwift;
pub use compile_swift_sources::CompileSwiftSources;
pub use compile_xib::CompileXIB;
pub use copy_resource::CopyResource;
pub use copy_swiftlibs::CopySwiftLibs;
pub use create_build_directory::CreateBuildDirectory;
pub use emit_swift_module::EmitSwiftModule;
pub use generate_dsym_file::GenerateDSYMFile;
pub use invocation::Invocation;
pub use ld::Ld;
pub use link_storyboards::LinkStoryboards;
pub use merge_swift_module::MergeSwiftModule;
pub use precompile_swift_bridging_header::PrecompileSwiftBridgingHeader;
pub use process_info_plist_file::ProcessInfoPlistFile;
pub use process_product_packaging::ProcessProductPackaging;
pub use register_execution_policy_exception::RegisterExecutionPolicyException;
pub use script_execution::ScriptExecution;
pub use validate::Validate;
