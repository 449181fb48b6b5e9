//! Classification of Rust projects for WebAssembly builds, selection of the
//! external tool that builds them, and the decisions of a build session.

pub mod audit;
pub mod classify;
pub mod host;
pub mod manifest;
pub mod plugin;
pub mod session;
pub mod text;
pub mod types;

pub use audit::Toolchain;
pub use classify::ProjectFiles;
pub use host::{create_plugin, Plugin, WasmBuilder, WasmrustBuilder, WasmrustPlugin};
pub use plugin::WasmRustPlugin;
pub use session::{lists_wasm_target, Action, BuildSession, Event};
pub use types::{
    BuildConfig, BuildResult, BuildStrategy, CompilationError, CompilationResult, CompileConfig,
    CompileResult, DependencyCheck, DependencyStatus, OptimizationLevel, PluginCapabilities,
    PluginInfo, PluginSource, PluginType, ProjectInfo, ProjectType, TargetType, WasmRustError,
    WasmRustResult,
};
