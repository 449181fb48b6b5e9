use vstd::prelude::*;

use crate::audit::{missing_tools, Toolchain};
use crate::classify::{is_web_app, ProjectFiles};
use crate::plugin::{error_message, WasmRustPlugin};
use crate::session::{ends_with, first_step, Action, BuildSession};
use crate::text::{concat, texts};
use crate::types::{
    BuildConfig, BuildResult, CompilationError, CompilationResult, CompileConfig, CompileResult,
    OptimizationLevel, PluginCapabilities, PluginInfo, PluginSource, PluginType, TargetType,
    WasmRustError,
};

verus! {

/// What a host learns of a plugin and asks of it.
pub trait Plugin {
    type Builder: WasmBuilder;

    fn info(&self) -> &PluginInfo;

    fn can_handle_project(&self, project: &ProjectFiles) -> bool;

    fn get_builder(&self) -> Self::Builder;
}

/// What a host asks of a plugin's builder.
pub trait WasmBuilder {
    fn can_handle_project(&self, project: &ProjectFiles) -> bool;

    fn build(&self, config: &BuildConfig, project: &ProjectFiles) -> (BuildSession, Action);

    fn check_dependencies(&self, tools: &Toolchain) -> Vec<String>;

    fn validate_project(&self, project_path: &str, project: &ProjectFiles) -> CompilationResult<()>;

    fn language_name(&self) -> &'static str;

    fn entry_file_candidates(&self) -> Vec<&'static str>;

    fn supported_extensions(&self) -> Vec<&'static str>;
}

/// The descriptor of this plugin.
pub open spec fn describes_wasmrust(info: PluginInfo) -> bool {
    &&& info.name@ == "wasmrust"@
    &&& info.version@ == "0.3.0"@
    &&& info.description@ == "Rust to WebAssembly compiler with wasm-bindgen support"@
    &&& info.author@ == "Kumar Anirudha"@
    &&& texts(info.extensions@) == seq!["rs"@, "toml"@]
    &&& texts(info.entry_files@) == seq!["Cargo.toml"@, "src/main.rs"@, "src/lib.rs"@]
    &&& info.plugin_type == PluginType::External
    &&& info.source is Some
    &&& info.source->Some_0 is CratesIo
    &&& info.source->Some_0->CratesIo_name@ == "wasmrust"@
    &&& info.source->Some_0->CratesIo_version@ == "0.3.0"@
    &&& texts(info.dependencies@) == seq!["cargo"@, "rustc"@, "wasm-pack"@]
    &&& info.capabilities.compile_wasm
    &&& info.capabilities.compile_webapp
    &&& info.capabilities.live_reload
    &&& info.capabilities.optimization
    &&& texts(info.capabilities.custom_targets@) == seq!["wasm32-unknown-unknown"@, "web"@]
}

/// This plugin as its host sees it: its descriptor and its classifier.
pub struct WasmrustPlugin {
    inner: WasmRustPlugin,
    info: PluginInfo,
}

impl WasmrustPlugin {
    #[verifier::type_invariant]
    spec fn described(&self) -> bool {
        describes_wasmrust(self.info)
    }

    /// The descriptor this plugin hands out.
    pub closed spec fn descriptor(&self) -> PluginInfo {
        self.info
    }

    pub fn new() -> (r: Self)
        ensures
            describes_wasmrust(r.descriptor()),
    {
        let extensions = vec!["rs".to_string(), "toml".to_string()];
        let entry_files = vec![
            "Cargo.toml".to_string(),
            "src/main.rs".to_string(),
            "src/lib.rs".to_string(),
        ];
        let dependencies = vec!["cargo".to_string(), "rustc".to_string(), "wasm-pack".to_string()];
        let custom_targets = vec!["wasm32-unknown-unknown".to_string(), "web".to_string()];
        assert(texts(extensions@) =~= seq!["rs"@, "toml"@]);
        assert(texts(entry_files@) =~= seq!["Cargo.toml"@, "src/main.rs"@, "src/lib.rs"@]);
        assert(texts(dependencies@) =~= seq!["cargo"@, "rustc"@, "wasm-pack"@]);
        assert(texts(custom_targets@) =~= seq!["wasm32-unknown-unknown"@, "web"@]);
        let info = PluginInfo {
            name: "wasmrust".to_string(),
            version: "0.3.0".to_string(),
            description: "Rust to WebAssembly compiler with wasm-bindgen support".to_string(),
            author: "Kumar Anirudha".to_string(),
            extensions,
            entry_files,
            plugin_type: PluginType::External,
            source: Some(
                PluginSource::CratesIo {
                    name: "wasmrust".to_string(),
                    version: "0.3.0".to_string(),
                },
            ),
            dependencies,
            capabilities: PluginCapabilities {
                compile_wasm: true,
                compile_webapp: true,
                live_reload: true,
                optimization: true,
                custom_targets,
            },
        };
        WasmrustPlugin { inner: WasmRustPlugin::new(), info }
    }

    /// The plugin's descriptor.
    pub fn info(&self) -> (r: &PluginInfo)
        ensures
            describes_wasmrust(*r),
            *r == self.descriptor(),
    {
        proof {
            use_type_invariant(self);
        }
        &self.info
    }

    /// A project can be handled when its root holds a `Cargo.toml`.
    pub fn can_handle_project(&self, project: &ProjectFiles) -> (r: bool)
        ensures
            r == project.holds("Cargo.toml"@),
    {
        self.inner.can_handle(project)
    }

    /// A builder for the host.
    pub fn get_builder(&self) -> (r: WasmrustBuilder) {
        WasmrustBuilder::new()
    }
}

impl Plugin for WasmrustPlugin {
    type Builder = WasmrustBuilder;

    fn info(&self) -> &PluginInfo {
        WasmrustPlugin::info(self)
    }

    fn can_handle_project(&self, project: &ProjectFiles) -> bool {
        WasmrustPlugin::can_handle_project(self, project)
    }

    fn get_builder(&self) -> WasmrustBuilder {
        WasmrustPlugin::get_builder(self)
    }
}

impl Default for WasmrustPlugin {
    fn default() -> (r: Self)
        ensures
            describes_wasmrust(r.descriptor()),
    {
        WasmrustPlugin::new()
    }
}

impl Default for WasmrustBuilder {
    fn default() -> (r: Self)
        ensures
            r == WasmrustBuilder::new_spec(),
    {
        WasmrustBuilder::new()
    }
}

/// The plugin, as the host's entry point creates it.
pub fn create_plugin() -> (r: WasmrustPlugin)
    ensures
        describes_wasmrust(r.descriptor()),
{
    WasmrustPlugin::new()
}

/// `n` has the extension `wasm`: it ends with `.wasm` after at least one
/// other character.
pub open spec fn is_module_name(n: Seq<char>) -> bool {
    n.len() > 5 && ends_with(n, ".wasm"@)
}

/// The builder that the host drives.
#[derive(Debug, Clone, Copy)]
pub struct WasmrustBuilder {
    inner: WasmRustPlugin,
}

impl WasmrustBuilder {
    /// The one builder there is.
    pub closed spec fn new_spec() -> Self {
        WasmrustBuilder { inner: WasmRustPlugin }
    }

    pub fn new() -> (r: Self)
        ensures
            r == WasmrustBuilder::new_spec(),
    {
        WasmrustBuilder { inner: WasmRustPlugin::new() }
    }

    /// A project can be handled when its root holds a `Cargo.toml`.
    pub fn can_handle_project(&self, project: &ProjectFiles) -> (r: bool)
        ensures
            r == project.holds("Cargo.toml"@),
    {
        self.inner.can_handle(project)
    }

    /// The request a host's build configuration stands for: a web
    /// application when asked for one or when the project is one.
    pub fn compile_config(&self, config: &BuildConfig, project: &ProjectFiles) -> (r: CompileConfig)
        ensures
            r.project_path@ == config.input@,
            r.output_dir@ == config.output_dir@,
            r.optimization == config.optimization,
            r.target_type == if config.target_type@ == "webapp"@ || is_web_app(*project) {
                TargetType::WebApp
            } else {
                TargetType::Wasm
            },
            r.verbose == config.verbose,
    {
        let webapp = "webapp".to_string();
        let target_type = if config.target_type == webapp || self.inner.is_rust_web_application(
            project,
        ) {
            TargetType::WebApp
        } else {
            TargetType::Wasm
        };
        CompileConfig {
            project_path: config.input.clone(),
            output_dir: config.output_dir.clone(),
            optimization: config.optimization,
            target_type,
            verbose: config.verbose,
        }
    }

    /// Starts the build of a host's configuration.
    pub fn build(&self, config: &BuildConfig, project: &ProjectFiles) -> (r: (BuildSession, Action))
        ensures
            r.0.config_model().project_path@ == config.input@,
            r.0.config_model().output_dir@ == config.output_dir@,
            r.0.config_model().optimization == config.optimization,
            r.0.config_model().target_type == if config.target_type@ == "webapp"@ || is_web_app(
                *project,
            ) {
                TargetType::WebApp
            } else {
                TargetType::Wasm
            },
            r.0.config_model().verbose == config.verbose,
            (r.0.stage_model(), r.1@) == first_step(r.0.config_model()),
    {
        let compile_config = self.compile_config(config, project);
        self.inner.compile(compile_config)
    }

    /// The host's record of a successful build: the script or entry page
    /// where there is one, else the module.
    pub fn build_result(
        &self,
        result: CompileResult,
        optimization: OptimizationLevel,
        build_time: std::time::Duration,
        file_size: u64,
    ) -> (r: BuildResult)
        ensures
            r.output_path@ == match result.js_path {
                Some(js) => js@,
                None => result.wasm_path@,
            },
            r.language@ == "rust"@,
            r.optimization_level == optimization,
            r.build_time == build_time,
            r.file_size == file_size,
    {
        let output_path = match result.js_path {
            Some(js) => js,
            None => result.wasm_path,
        };
        BuildResult {
            output_path,
            language: "rust".to_string(),
            optimization_level: optimization,
            build_time,
            file_size,
        }
    }

    /// The host's record of a failed build.
    pub fn build_error(&self, e: &WasmRustError) -> (r: CompilationError)
        ensures
            r is BuildFailed,
            r->BuildFailed_language@ == "rust"@,
            r->BuildFailed_reason@ == error_message(e@),
    {
        CompilationError::BuildFailed { language: "rust".to_string(), reason: e.message() }
    }

    /// The position of the first name with the extension `wasm`.
    pub fn module_entry(&self, names: &Vec<String>) -> (r: Option<usize>)
        ensures
            r is Some ==> r->Some_0 < names@.len() && is_module_name(names@[r->Some_0 as int]@)
                && forall|j: int| 0 <= j < r->Some_0 ==> !is_module_name(#[trigger] names@[j]@),
            r is None ==> forall|j: int| 0 <= j < names@.len() ==> !is_module_name(#[trigger] names@[j]@),
    {
        let mut i: usize = 0;
        while i < names.len()
            invariant
                i <= names@.len(),
                forall|j: int| 0 <= j < i ==> !is_module_name(#[trigger] names@[j]@),
            decreases names@.len() - i,
        {
            if has_module_extension(names[i].as_str()) {
                return Some(i);
            }
            i += 1;
        }
        None
    }

    /// The tools every build needs that the toolchain report lacks.
    pub fn check_dependencies(&self, tools: &Toolchain) -> (r: Vec<String>)
        ensures
            texts(r@) == missing_tools(*tools),
    {
        self.inner.check_dependencies(tools)
    }

    /// A project is valid when its root holds a `Cargo.toml`.
    pub fn validate_project(&self, project_path: &str, project: &ProjectFiles) -> (r:
        CompilationResult<()>)
        ensures
            r is Ok <==> project.holds("Cargo.toml"@),
            r is Err ==> r->Err_0 is BuildFailed && r->Err_0->BuildFailed_language@ == "rust"@
                && r->Err_0->BuildFailed_reason@ == "Project at '"@ + project_path@
                + "' is not a valid Rust project"@,
    {
        if !self.inner.can_handle(project) {
            let mut reason = concat("Project at '", project_path);
            reason.append("' is not a valid Rust project");
            return Err(CompilationError::BuildFailed { language: "rust".to_string(), reason });
        }
        Ok(())
    }

    pub fn language_name(&self) -> (r: &'static str)
        ensures
            r@ == "rust"@,
    {
        "rust"
    }

    pub fn entry_file_candidates(&self) -> (r: Vec<&'static str>)
        ensures
            r@.map_values(|s: &str| s@) == seq!["Cargo.toml"@, "src/main.rs"@, "src/lib.rs"@],
    {
        let r = vec!["Cargo.toml", "src/main.rs", "src/lib.rs"];
        assert(r@.map_values(|s: &str| s@) =~= seq!["Cargo.toml"@, "src/main.rs"@, "src/lib.rs"@]);
        r
    }

    pub fn supported_extensions(&self) -> (r: Vec<&'static str>)
        ensures
            r@.map_values(|s: &str| s@) == seq!["rs"@, "toml"@],
    {
        let r = vec!["rs", "toml"];
        assert(r@.map_values(|s: &str| s@) =~= seq!["rs"@, "toml"@]);
        r
    }
}

fn has_module_extension(n: &str) -> (r: bool)
    ensures
        r == is_module_name(n@),
{
    let len = n.unicode_len();
    if len <= 5 {
        return false;
    }
    let suffix = ".wasm";
    proof {
        reveal_strlit(".wasm");
    }
    let mut k: usize = 0;
    while k < 5
        invariant
            k <= 5,
            len == n@.len(),
            len > 5,
            suffix@ == ".wasm"@,
            suffix@.len() == 5,
            forall|j: int| 0 <= j < k ==> n@[len - 5 + j] == suffix@[j],
        decreases 5 - k,
    {
        if n.get_char(len - 5 + k) != suffix.get_char(k) {
            assert(n@.subrange(len - 5, len as int)[k as int] != suffix@[k as int]);
            return false;
        }
        k += 1;
    }
    assert(n@.subrange(len - 5, len as int) =~= ".wasm"@);
    true
}

impl WasmBuilder for WasmrustBuilder {
    fn can_handle_project(&self, project: &ProjectFiles) -> bool {
        WasmrustBuilder::can_handle_project(self, project)
    }

    fn build(&self, config: &BuildConfig, project: &ProjectFiles) -> (BuildSession, Action) {
        WasmrustBuilder::build(self, config, project)
    }

    fn check_dependencies(&self, tools: &Toolchain) -> Vec<String> {
        WasmrustBuilder::check_dependencies(self, tools)
    }

    fn validate_project(&self, project_path: &str, project: &ProjectFiles) -> CompilationResult<()> {
        WasmrustBuilder::validate_project(self, project_path, project)
    }

    fn language_name(&self) -> &'static str {
        WasmrustBuilder::language_name(self)
    }

    fn entry_file_candidates(&self) -> Vec<&'static str> {
        WasmrustBuilder::entry_file_candidates(self)
    }

    fn supported_extensions(&self) -> Vec<&'static str> {
        WasmrustBuilder::supported_extensions(self)
    }
}

} // verus!
