use vstd::prelude::*;

verus! {

/// Where a plugin comes from: compiled into the host, or loaded by it.
#[derive(Debug, Clone, Copy, PartialEq, Eq, Structural)]
pub enum PluginType {
    Builtin,
    External,
}

/// What a plugin can do for its host.
#[derive(Debug, Clone)]
pub struct PluginCapabilities {
    pub compile_wasm: bool,
    pub compile_webapp: bool,
    pub live_reload: bool,
    pub optimization: bool,
    pub custom_targets: Vec<String>,
}

/// Where the host may fetch an external plugin from.
#[derive(Debug, Clone)]
pub enum PluginSource {
    CratesIo { name: String, version: String },
    Git { url: String, rev: Option<String> },
    Local { path: String },
}

/// The descriptor a plugin hands to its host.
#[derive(Debug, Clone)]
pub struct PluginInfo {
    pub name: String,
    pub version: String,
    pub description: String,
    pub author: String,
    pub extensions: Vec<String>,
    pub entry_files: Vec<String>,
    pub plugin_type: PluginType,
    pub source: Option<PluginSource>,
    pub dependencies: Vec<String>,
    pub capabilities: PluginCapabilities,
}

/// How hard the build tools are asked to optimise; always given, never inferred.
#[derive(Debug, Clone, Copy, PartialEq, Eq, Structural)]
pub enum OptimizationLevel {
    Debug,
    Release,
    Size,
}

/// A build request in the host's terms.
#[derive(Debug, Clone)]
pub struct BuildConfig {
    pub input: String,
    pub output_dir: String,
    pub optimization: OptimizationLevel,
    pub target_type: String,
    pub verbose: bool,
    pub watch: bool,
}

/// A finished build in the host's terms.
#[derive(Debug)]
pub struct BuildResult {
    pub output_path: String,
    pub language: String,
    pub optimization_level: OptimizationLevel,
    pub build_time: std::time::Duration,
    pub file_size: u64,
}

/// A failed build in the host's terms.
#[derive(Debug, Clone, PartialEq, Eq)]
pub enum CompilationError {
    BuildFailed { language: String, reason: String },
    ToolExecutionFailed { tool: String, reason: String },
    InvalidConfiguration { reason: String },
}

pub type CompilationResult<T> = Result<T, CompilationError>;

/// The error kinds of classification and building. Each carries the text
/// an operator needs: for `Io` and `TomlParse`, the message of the
/// underlying failure.
#[derive(Debug, Clone, PartialEq, Eq)]
pub enum WasmRustError {
    Io(String),
    CompilationFailed(String),
    InvalidProject(String),
    ToolNotFound(String),
    TomlParse(String),
}

pub type WasmRustResult<T> = Result<T, WasmRustError>;

/// What the caller wants built.
#[derive(Debug, Clone, Copy, PartialEq, Eq, Structural)]
pub enum TargetType {
    Wasm,
    WebApp,
}

/// A build request for one project.
#[derive(Debug, Clone)]
pub struct CompileConfig {
    pub project_path: String,
    pub output_dir: String,
    pub optimization: OptimizationLevel,
    pub target_type: TargetType,
    pub verbose: bool,
}

/// The files a successful build produced. For an application bundle
/// `wasm_path` is the bundle's directory and `js_path` its entry page.
#[derive(Debug, Clone, PartialEq, Eq)]
pub struct CompileResult {
    pub wasm_path: String,
    pub js_path: Option<String>,
    pub additional_files: Vec<String>,
    pub is_webapp: bool,
}

/// The kind of artifact a project needs.
#[derive(Debug, Clone, Copy, PartialEq, Eq, Structural)]
pub enum ProjectType {
    StandardWasm,
    WasmBindgen,
    WebApplication,
}

/// The external tool that builds a project.
#[derive(Debug, Clone, Copy, PartialEq, Eq, Structural)]
pub enum BuildStrategy {
    Cargo,
    WasmPack,
    Trunk,
}

/// Whether one external tool is present, and why it is wanted.
#[derive(Debug, Clone)]
pub struct DependencyCheck {
    pub name: String,
    pub available: bool,
    pub reason: String,
}

/// The tools a build strategy needs, and those it can use.
#[derive(Debug, Clone)]
pub struct DependencyStatus {
    pub required: Vec<DependencyCheck>,
    pub optional: Vec<DependencyCheck>,
}

/// Everything known of a project after classification.
#[derive(Debug, Clone)]
pub struct ProjectInfo {
    pub name: String,
    pub version: String,
    pub project_type: ProjectType,
    pub build_strategy: BuildStrategy,
    pub frameworks: Vec<String>,
    pub dependencies: DependencyStatus,
}

/// A build error as the texts it carries.
pub enum ErrorModel {
    Io(Seq<char>),
    CompilationFailed(Seq<char>),
    InvalidProject(Seq<char>),
    ToolNotFound(Seq<char>),
    TomlParse(Seq<char>),
}

impl View for WasmRustError {
    type V = ErrorModel;

    open spec fn view(&self) -> ErrorModel {
        match self {
            WasmRustError::Io(m) => ErrorModel::Io(m@),
            WasmRustError::CompilationFailed(m) => ErrorModel::CompilationFailed(m@),
            WasmRustError::InvalidProject(m) => ErrorModel::InvalidProject(m@),
            WasmRustError::ToolNotFound(m) => ErrorModel::ToolNotFound(m@),
            WasmRustError::TomlParse(m) => ErrorModel::TomlParse(m@),
        }
    }
}

/// The outputs of a build as paths.
pub struct OutputsModel {
    pub wasm_path: Seq<char>,
    pub js_path: Option<Seq<char>>,
    pub additional_files: Seq<Seq<char>>,
    pub is_webapp: bool,
}

impl View for CompileResult {
    type V = OutputsModel;

    open spec fn view(&self) -> OutputsModel {
        OutputsModel {
            wasm_path: self.wasm_path@,
            js_path: match self.js_path {
                Some(p) => Some(p@),
                None => None,
            },
            additional_files: self.additional_files@.map_values(|s: String| s@),
            is_webapp: self.is_webapp,
        }
    }
}

/// The path a host should load from a build's outputs: the bundle's
/// directory for an application, else the script glue if there is one,
/// else the module.
pub open spec fn primary_path(r: OutputsModel) -> Seq<char> {
    if r.is_webapp {
        r.wasm_path
    } else {
        match r.js_path {
            Some(js) => js,
            None => r.wasm_path,
        }
    }
}

} // verus!
