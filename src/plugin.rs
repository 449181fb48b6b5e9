use vstd::prelude::*;

use crate::audit::{checks_view, optional_checks, required_checks, Toolchain};
use crate::classify::{category, detected_frameworks, has_bundler_config, is_web_app, ProjectFiles};
use crate::manifest::{
    declares_package, missing_field_message, package_field, package_name_of, package_version_of,
    read_package, toml_accepts,
};
use crate::session::{first_step, Action, BuildSession};
use crate::text::{concat, join_path, joined, texts};
use crate::types::{
    primary_path, CompilationError, CompileConfig, CompileResult, ErrorModel, OptimizationLevel,
    ProjectInfo, TargetType, WasmRustError, WasmRustResult,
};

verus! {

/// The classifier and build planner for Rust projects.
#[derive(Debug, Clone, Copy)]
pub struct WasmRustPlugin;

/// The text of an error, as its kind and what it carries.
pub open spec fn error_message(e: ErrorModel) -> Seq<char> {
    match e {
        ErrorModel::Io(m) => "I/O error: "@ + m,
        ErrorModel::CompilationFailed(m) => "Compilation failed: "@ + m,
        ErrorModel::InvalidProject(m) => "Invalid project: "@ + m,
        ErrorModel::ToolNotFound(m) => "Tool not found: "@ + m,
        ErrorModel::TomlParse(m) => "TOML parse error: "@ + m,
    }
}

impl WasmRustError {
    /// The error as a line of text.
    pub fn message(&self) -> (r: String)
        ensures
            r@ == error_message(self@),
    {
        match self {
            WasmRustError::Io(m) => concat("I/O error: ", m.as_str()),
            WasmRustError::CompilationFailed(m) => concat("Compilation failed: ", m.as_str()),
            WasmRustError::InvalidProject(m) => concat("Invalid project: ", m.as_str()),
            WasmRustError::ToolNotFound(m) => concat("Tool not found: ", m.as_str()),
            WasmRustError::TomlParse(m) => concat("TOML parse error: ", m.as_str()),
        }
    }
}

impl CompilationError {
    /// The error as a line of text.
    pub fn message(&self) -> (r: String)
        ensures
            r@ == match self {
                CompilationError::BuildFailed { language, reason } => "Build failed for "@
                    + language@ + ": "@ + reason@,
                CompilationError::ToolExecutionFailed { tool, reason } =>
                    "Tool execution failed - "@ + tool@ + ": "@ + reason@,
                CompilationError::InvalidConfiguration { reason } => "Invalid configuration: "@
                    + reason@,
            },
    {
        match self {
            CompilationError::BuildFailed { language, reason } => {
                let mut r = concat("Build failed for ", language.as_str());
                r.append(": ");
                r.append(reason.as_str());
                r
            },
            CompilationError::ToolExecutionFailed { tool, reason } => {
                let mut r = concat("Tool execution failed - ", tool.as_str());
                r.append(": ");
                r.append(reason.as_str());
                r
            },
            CompilationError::InvalidConfiguration { reason } => concat(
                "Invalid configuration: ",
                reason.as_str(),
            ),
        }
    }
}

/// `v`, with `root/name` added when the root holds `name`.
pub open spec fn add_if_present(v: Seq<Seq<char>>, root: Seq<char>, p: ProjectFiles, name: Seq<char>) -> Seq<
    Seq<char>,
> {
    if p.holds(name) {
        v.push(joined(root, name))
    } else {
        v
    }
}

/// The paths worth watching for changes in a project rooted at `root`:
/// the manifest, then those of the sources, the trunk configuration and
/// the asset directories that are there.
pub open spec fn watch_paths(root: Seq<char>, p: ProjectFiles) -> Seq<Seq<char>> {
    let a = add_if_present(seq![joined(root, "Cargo.toml"@)], root, p, "src"@);
    let b = add_if_present(a, root, p, "Trunk.toml"@);
    let c = add_if_present(b, root, p, "assets"@);
    let d = add_if_present(c, root, p, "static"@);
    add_if_present(d, root, p, "public"@)
}

fn add_present(v: &mut Vec<String>, root: &str, p: &ProjectFiles, name: &str)
    ensures
        texts(final(v)@) == add_if_present(texts(old(v)@), root@, *p, name@),
{
    if p.has_entry(name) {
        v.push(join_path(root, name));
        assert(texts(v@) =~= texts(old(v)@).push(joined(root@, name@)));
    }
}

/// The outcome of an inspection, given the manifest's text.
pub open spec fn inspection_of(
    t: Seq<char>,
    p: ProjectFiles,
    tools: Toolchain,
    info: ProjectInfo,
) -> bool {
    &&& info.name@ == package_name_of(t)
    &&& info.version@ == package_version_of(t)
    &&& info.project_type == category(t, p)
    &&& info.build_strategy == crate::classify::strategy_for(info.project_type, has_bundler_config(p))
    &&& texts(info.frameworks@) == detected_frameworks(t)
    &&& checks_view(info.dependencies.required@) == required_checks(info.build_strategy, tools)
    &&& checks_view(info.dependencies.optional@) == optional_checks(info.build_strategy, tools)
}

impl WasmRustPlugin {
    pub fn new() -> (r: Self) {
        WasmRustPlugin
    }

    /// Classifies a project from what its root holds, and audits the tools
    /// its build strategy needs. A root without `Cargo.toml` gives
    /// `InvalidProject`, an unreadable manifest `Io`, and a manifest without
    /// a package name and version `TomlParse`.
    pub fn inspect_project(&self, project: &ProjectFiles, tools: &Toolchain) -> (r: WasmRustResult<
        ProjectInfo,
    >)
        ensures
            !project.holds("Cargo.toml"@) ==> r is Err && r->Err_0@ == ErrorModel::InvalidProject(
                "No Cargo.toml found"@,
            ),
            project.holds("Cargo.toml"@) && project.manifest is None ==> r is Err && r->Err_0 is Io,
            project.holds("Cargo.toml"@) && project.manifest is Some ==> {
                let t = project.manifest->Some_0@;
                &&& r is Ok <==> declares_package(t)
                &&& r is Ok ==> inspection_of(t, *project, *tools, r->Ok_0)
                &&& r is Err ==> r->Err_0 is TomlParse
                &&& toml_accepts(t) && package_field(t, "name"@) is None ==> r is Err
                    && r->Err_0@ == ErrorModel::TomlParse(missing_field_message("name"@))
                &&& toml_accepts(t) && package_field(t, "name"@) is Some && package_field(
                    t,
                    "version"@,
                ) is None ==> r is Err && r->Err_0@ == ErrorModel::TomlParse(
                    missing_field_message("version"@),
                )
            },
    {
        if !project.has_entry("Cargo.toml") {
            return Err(WasmRustError::InvalidProject("No Cargo.toml found".to_string()));
        }
        let content = match &project.manifest {
            Some(t) => t.as_str(),
            None => {
                return Err(WasmRustError::Io("Cargo.toml could not be read".to_string()));
            },
        };
        let (name, version) = read_package(content)?;
        let (project_type, frameworks) = self.detect_project_type_and_frameworks(project, content);
        let build_strategy = self.determine_build_strategy(project, &project_type);
        let dependencies = self.check_dependencies_comprehensive(
            &project_type,
            &build_strategy,
            tools,
        );
        Ok(ProjectInfo { name, version, project_type, build_strategy, frameworks, dependencies })
    }

    /// The same as `inspect_project`.
    pub fn get_project_info(&self, project: &ProjectFiles, tools: &Toolchain) -> (r: WasmRustResult<
        ProjectInfo,
    >)
        ensures
            !project.holds("Cargo.toml"@) ==> r is Err && r->Err_0@ == ErrorModel::InvalidProject(
                "No Cargo.toml found"@,
            ),
            project.holds("Cargo.toml"@) && project.manifest is None ==> r is Err && r->Err_0 is Io,
            project.holds("Cargo.toml"@) && project.manifest is Some ==> {
                let t = project.manifest->Some_0@;
                &&& r is Ok <==> declares_package(t)
                &&& r is Ok ==> inspection_of(t, *project, *tools, r->Ok_0)
                &&& r is Err ==> r->Err_0 is TomlParse
                &&& toml_accepts(t) && package_field(t, "name"@) is None ==> r is Err
                    && r->Err_0@ == ErrorModel::TomlParse(missing_field_message("name"@))
                &&& toml_accepts(t) && package_field(t, "name"@) is Some && package_field(
                    t,
                    "version"@,
                ) is None ==> r is Err && r->Err_0@ == ErrorModel::TomlParse(
                    missing_field_message("version"@),
                )
            },
    {
        self.inspect_project(project, tools)
    }

    /// Starts a build; the host runs the session to its outcome.
    pub fn compile(&self, config: CompileConfig) -> (r: (BuildSession, Action))
        ensures
            r.0.config_model() == config,
            (r.0.stage_model(), r.1@) == first_step(config),
    {
        BuildSession::start(config)
    }

    /// The request of an ahead-of-time build: a release build, of a web
    /// application where the project is one.
    pub fn aot_config(
        &self,
        project_path: &str,
        output_dir: &str,
        optimization: OptimizationLevel,
        project: &ProjectFiles,
    ) -> (r: CompileConfig)
        ensures
            r.project_path@ == project_path@,
            r.output_dir@ == output_dir@,
            r.optimization == optimization,
            r.target_type == if is_web_app(*project) {
                TargetType::WebApp
            } else {
                TargetType::Wasm
            },
            !r.verbose,
    {
        CompileConfig {
            project_path: project_path.to_string(),
            output_dir: output_dir.to_string(),
            optimization,
            target_type: if self.is_rust_web_application(project) {
                TargetType::WebApp
            } else {
                TargetType::Wasm
            },
            verbose: false,
        }
    }

    /// Starts an ahead-of-time release build.
    pub fn compile_for_aot(&self, project_path: &str, output_dir: &str, project: &ProjectFiles) -> (r: (
        BuildSession,
        Action,
    ))
        ensures
            r.0.config_model().project_path@ == project_path@,
            r.0.config_model().output_dir@ == output_dir@,
            r.0.config_model().optimization == OptimizationLevel::Release,
            r.0.config_model().target_type == if is_web_app(*project) {
                TargetType::WebApp
            } else {
                TargetType::Wasm
            },
            !r.0.config_model().verbose,
            (r.0.stage_model(), r.1@) == first_step(r.0.config_model()),
    {
        let config = self.aot_config(project_path, output_dir, OptimizationLevel::Release, project);
        BuildSession::start(config)
    }

    /// Starts an ahead-of-time build at the given optimization level.
    pub fn compile_for_aot_with_optimization(
        &self,
        project_path: &str,
        output_dir: &str,
        optimization: OptimizationLevel,
        project: &ProjectFiles,
    ) -> (r: (BuildSession, Action))
        ensures
            r.0.config_model().project_path@ == project_path@,
            r.0.config_model().output_dir@ == output_dir@,
            r.0.config_model().optimization == optimization,
            r.0.config_model().target_type == if is_web_app(*project) {
                TargetType::WebApp
            } else {
                TargetType::Wasm
            },
            !r.0.config_model().verbose,
            (r.0.stage_model(), r.1@) == first_step(r.0.config_model()),
    {
        let config = self.aot_config(project_path, output_dir, optimization, project);
        BuildSession::start(config)
    }

    /// The path a host should load from a build's outputs.
    pub fn get_primary_output_file(&self, result: &CompileResult) -> (r: WasmRustResult<String>)
        ensures
            r is Ok,
            r->Ok_0@ == primary_path(result@),
    {
        if result.is_webapp {
            Ok(result.wasm_path.clone())
        } else {
            match &result.js_path {
                Some(js) => Ok(js.clone()),
                None => Ok(result.wasm_path.clone()),
            }
        }
    }

    /// The paths worth watching for changes in a project.
    pub fn get_watch_paths(&self, project_path: &str, project: &ProjectFiles) -> (r: Vec<String>)
        ensures
            texts(r@) == watch_paths(project_path@, *project),
    {
        let mut paths: Vec<String> = Vec::new();
        paths.push(join_path(project_path, "Cargo.toml"));
        assert(texts(paths@) =~= seq![joined(project_path@, "Cargo.toml"@)]);
        add_present(&mut paths, project_path, project, "src");
        add_present(&mut paths, project_path, project, "Trunk.toml");
        add_present(&mut paths, project_path, project, "assets");
        add_present(&mut paths, project_path, project, "static");
        add_present(&mut paths, project_path, project, "public");
        paths
    }

    /// The file extensions of a Rust project.
    pub fn get_extensions(&self) -> (r: Vec<String>)
        ensures
            texts(r@) == seq!["rs"@, "toml"@],
    {
        let r = vec!["rs".to_string(), "toml".to_string()];
        assert(texts(r@) =~= seq!["rs"@, "toml"@]);
        r
    }

    /// The files that mark the root of a Rust project.
    pub fn get_entry_files(&self) -> (r: Vec<String>)
        ensures
            texts(r@) == seq!["Cargo.toml"@, "src/main.rs"@, "src/lib.rs"@],
    {
        let r = vec!["Cargo.toml".to_string(), "src/main.rs".to_string(), "src/lib.rs".to_string()];
        assert(texts(r@) =~= seq!["Cargo.toml"@, "src/main.rs"@, "src/lib.rs"@]);
        r
    }
}

impl Default for WasmRustPlugin {
    fn default() -> (r: Self)
        ensures
            r == WasmRustPlugin,
    {
        WasmRustPlugin::new()
    }
}

} // verus!
