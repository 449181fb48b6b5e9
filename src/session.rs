use vstd::prelude::*;

use crate::classify::{has_bundler_config, is_web_app, uses_bindings, ProjectFiles};
use crate::manifest::{
    artifact_stem, declares_package, missing_field_message, package_field, package_name_of,
    read_package, toml_accepts,
};
use crate::plugin::WasmRustPlugin;
use crate::text::{
    bullet_list, bullets, concat, contains_text, join_path, joined, occurs_in, opt_text, replace_char,
    swap_char, texts,
};
use crate::types::{
    CompileConfig, CompileResult, ErrorModel, OptimizationLevel, OutputsModel, WasmRustError,
    WasmRustResult, primary_path,
};

verus! {

/// A piece of outside work that a build session asks of its host.
#[derive(Debug, PartialEq, Eq)]
pub enum Action {
    /// Create a directory with its missing parents; answer `Done` or `Failed`.
    CreateDir { path: String },
    /// Read the project's manifest and list its root; answer `Project` or `Failed`.
    InspectProject { path: String },
    /// Tell whether a tool can be run; answer `Available`.
    ProbeTool { tool: String },
    /// Run a program to its end, in `dir` or else where the host stands,
    /// and capture what it printed; answer `Exited` or `Failed`.
    Run { program: String, args: Vec<String>, dir: Option<String> },
    /// Tell whether a path exists; answer `Available`.
    CheckPath { path: String },
    /// List the names in a directory; answer `Listing`.
    ListDir { path: String },
    /// Read a text file; answer `Contents` or `Failed`.
    ReadFile { path: String },
    /// Copy one file; answer `Done` or `Failed`.
    CopyFile { from: String, to: String },
    /// Copy a directory tree into another directory; answer `Done` or `Failed`.
    CopyTree { from: String, to: String },
    /// The build is over, with this outcome.
    Finish { outcome: WasmRustResult<CompileResult> },
}

/// The host's answer to the last action.
#[derive(Debug, Clone, PartialEq, Eq)]
pub enum Event {
    Done,
    /// The outside work failed with this I/O error message.
    Failed(String),
    Project(ProjectFiles),
    Available(bool),
    Exited { success: bool, stdout: String, stderr: String },
    Contents(String),
    /// The names in a directory, or nothing where it cannot be read.
    Listing(Option<Vec<String>>),
}

/// An action as the texts it carries.
pub enum ActionModel {
    CreateDir(Seq<char>),
    InspectProject(Seq<char>),
    ProbeTool(Seq<char>),
    Run(Seq<char>, Seq<Seq<char>>, Option<Seq<char>>),
    CheckPath(Seq<char>),
    ListDir(Seq<char>),
    ReadFile(Seq<char>),
    CopyFile(Seq<char>, Seq<char>),
    CopyTree(Seq<char>, Seq<char>),
    Finish(Result<OutputsModel, ErrorModel>),
}

impl View for Action {
    type V = ActionModel;

    open spec fn view(&self) -> ActionModel {
        match self {
            Action::CreateDir { path } => ActionModel::CreateDir(path@),
            Action::InspectProject { path } => ActionModel::InspectProject(path@),
            Action::ProbeTool { tool } => ActionModel::ProbeTool(tool@),
            Action::Run { program, args, dir } => ActionModel::Run(
                program@,
                texts(args@),
                opt_text(*dir),
            ),
            Action::CheckPath { path } => ActionModel::CheckPath(path@),
            Action::ListDir { path } => ActionModel::ListDir(path@),
            Action::ReadFile { path } => ActionModel::ReadFile(path@),
            Action::CopyFile { from, to } => ActionModel::CopyFile(from@, to@),
            Action::CopyTree { from, to } => ActionModel::CopyTree(from@, to@),
            Action::Finish { outcome } => ActionModel::Finish(
                match outcome {
                    Ok(r) => Ok(r@),
                    Err(e) => Err(e@),
                },
            ),
        }
    }
}

/// Where a build session stands: what it waits for.
#[derive(Debug)]
pub enum Stage {
    PreparingOutput,
    Inspecting,
    ListingTargets,
    InstallingTarget,
    Compiling,
    ReadingModuleName,
    Locating { name: String, index: usize },
    ListingProfile { name: String },
    CopyingModule { name: String },
    ProbingPack,
    Packing,
    ReadingPackName,
    ProbingTrunk,
    Bundling,
    CheckingDist,
    PreparingCopy,
    CopyingDist,
    CheckingOutput,
    Finished,
}

/// A stage as the texts it carries.
pub enum StageModel {
    PreparingOutput,
    Inspecting,
    ListingTargets,
    InstallingTarget,
    Compiling,
    ReadingModuleName,
    Locating(Seq<char>, nat),
    ListingProfile(Seq<char>),
    CopyingModule(Seq<char>),
    ProbingPack,
    Packing,
    ReadingPackName,
    ProbingTrunk,
    Bundling,
    CheckingDist,
    PreparingCopy,
    CopyingDist,
    CheckingOutput,
    Finished,
}

impl View for Stage {
    type V = StageModel;

    open spec fn view(&self) -> StageModel {
        match self {
            Stage::PreparingOutput => StageModel::PreparingOutput,
            Stage::Inspecting => StageModel::Inspecting,
            Stage::ListingTargets => StageModel::ListingTargets,
            Stage::InstallingTarget => StageModel::InstallingTarget,
            Stage::Compiling => StageModel::Compiling,
            Stage::ReadingModuleName => StageModel::ReadingModuleName,
            Stage::Locating { name, index } => StageModel::Locating(name@, *index as nat),
            Stage::ListingProfile { name } => StageModel::ListingProfile(name@),
            Stage::CopyingModule { name } => StageModel::CopyingModule(name@),
            Stage::ProbingPack => StageModel::ProbingPack,
            Stage::Packing => StageModel::Packing,
            Stage::ReadingPackName => StageModel::ReadingPackName,
            Stage::ProbingTrunk => StageModel::ProbingTrunk,
            Stage::Bundling => StageModel::Bundling,
            Stage::CheckingDist => StageModel::CheckingDist,
            Stage::PreparingCopy => StageModel::PreparingCopy,
            Stage::CopyingDist => StageModel::CopyingDist,
            Stage::CheckingOutput => StageModel::CheckingOutput,
            Stage::Finished => StageModel::Finished,
        }
    }
}

/// One build of one project, from the creation of its output directory to
/// its outcome. The host performs each action it is handed and answers
/// with the event that came of it.
#[derive(Debug)]
pub struct BuildSession {
    config: CompileConfig,
    stage: Stage,
}

// ---------------------------------------------------------------------------
// The arguments handed to the tools.

/// The arguments of `cargo`: a wasm32 build, in release mode unless debugging.
pub open spec fn cargo_args(opt: OptimizationLevel) -> Seq<Seq<char>> {
    let base = seq!["build"@, "--target"@, "wasm32-unknown-unknown"@];
    match opt {
        OptimizationLevel::Debug => base,
        OptimizationLevel::Release => base.push("--release"@),
        OptimizationLevel::Size => base.push("--release"@),
    }
}

/// The arguments of `wasm-pack`: a build for the web into `out`.
pub open spec fn pack_args(opt: OptimizationLevel, out: Seq<char>) -> Seq<Seq<char>> {
    let mode = match opt {
        OptimizationLevel::Debug => "--dev"@,
        OptimizationLevel::Release => "--release"@,
        OptimizationLevel::Size => "--release"@,
    };
    seq!["build"@, "--target"@, "web"@, mode, "--out-dir"@, out]
}

/// The arguments of `trunk`: a build into the project's `dist`, minified
/// when size matters.
pub open spec fn trunk_args(opt: OptimizationLevel) -> Seq<Seq<char>> {
    let flags: Seq<Seq<char>> = match opt {
        OptimizationLevel::Debug => seq![],
        OptimizationLevel::Release => seq!["--release"@],
        OptimizationLevel::Size => seq!["--release"@, "--minify"@],
    };
    seq!["build"@] + flags + seq!["--dist"@, "dist"@]
}

/// The arguments of `rustup` that list the installed targets.
pub open spec fn list_targets_args() -> Seq<Seq<char>> {
    seq!["target"@, "list"@, "--installed"@]
}

/// The arguments of `rustup` that install the wasm32 target.
pub open spec fn add_target_args() -> Seq<Seq<char>> {
    seq!["target"@, "add"@, "wasm32-unknown-unknown"@]
}

// ---------------------------------------------------------------------------
// The paths a build reads and writes.

/// The directory cargo writes a wasm32 build into.
pub open spec fn profile_dir(project: Seq<char>, opt: OptimizationLevel) -> Seq<char> {
    let profile = match opt {
        OptimizationLevel::Debug => "debug"@,
        _ => "release"@,
    };
    joined(joined(project, "target/wasm32-unknown-unknown"@), profile)
}

/// The three names tried for cargo's module, from the package name: as
/// it is written, with `-` turned into `_`, and with `_` turned into `-`.
pub open spec fn module_candidates(project: Seq<char>, opt: OptimizationLevel, name: Seq<char>) -> Seq<
    Seq<char>,
> {
    let dir = profile_dir(project, opt);
    seq![
        joined(dir, name + ".wasm"@),
        joined(dir, swap_char(name, '-', '_') + ".wasm"@),
        joined(dir, swap_char(name, '_', '-') + ".wasm"@),
    ]
}

/// The message of a build whose module could not be found.
pub open spec fn missing_module_message(
    tried: Seq<Seq<char>>,
    dir: Seq<char>,
    listing: Option<Seq<Seq<char>>>,
) -> Seq<char> {
    "WASM file not found. Tried:\n"@ + bullets(tried) + match listing {
        Some(names) => "Files found in target directory:\n"@ + bullets(names),
        None => "Target directory doesn't exist: "@ + dir + "\n"@,
    }
}

/// The message of a tool that exited with failure.
pub open spec fn failure_message(stdout: Seq<char>, stderr: Seq<char>) -> Seq<char> {
    "stdout: "@ + stdout + "\nstderr: "@ + stderr
}

/// The outputs of a cargo build: the module copied into the output directory.
pub open spec fn module_outputs(out: Seq<char>, stem: Seq<char>) -> OutputsModel {
    OutputsModel {
        wasm_path: joined(out, stem + ".wasm"@),
        js_path: None,
        additional_files: seq![],
        is_webapp: false,
    }
}

/// The outputs of a wasm-pack build: the module and its script glue.
pub open spec fn pack_outputs(out: Seq<char>, stem: Seq<char>) -> OutputsModel {
    OutputsModel {
        wasm_path: joined(out, stem + "_bg.wasm"@),
        js_path: Some(joined(out, stem + ".js"@)),
        additional_files: seq![],
        is_webapp: false,
    }
}

/// The outputs of a trunk build: the bundle's directory and its entry page.
pub open spec fn bundle_outputs(out: Seq<char>) -> OutputsModel {
    OutputsModel {
        wasm_path: out,
        js_path: Some(joined(out, "index.html"@)),
        additional_files: seq![],
        is_webapp: true,
    }
}

pub open spec fn dist_dir(project: Seq<char>) -> Seq<char> {
    joined(project, "dist"@)
}

pub open spec fn manifest_path(project: Seq<char>) -> Seq<char> {
    joined(project, "Cargo.toml"@)
}

// ---------------------------------------------------------------------------
// The decisions.

pub open spec fn fail(e: ErrorModel) -> (StageModel, ActionModel) {
    (StageModel::Finished, ActionModel::Finish(Err(e)))
}

pub open spec fn succeed(r: OutputsModel) -> (StageModel, ActionModel) {
    (StageModel::Finished, ActionModel::Finish(Ok(r)))
}

/// The message given for an answer that does not fit the action asked.
pub open spec fn unexpected_message() -> Seq<char> {
    "the host's answer does not fit the action asked of it"@
}

pub open spec fn unexpected() -> (StageModel, ActionModel) {
    fail(ErrorModel::Io(unexpected_message()))
}

/// What a session starts with: the output directory.
pub open spec fn first_step(c: CompileConfig) -> (StageModel, ActionModel) {
    (StageModel::PreparingOutput, ActionModel::CreateDir(c.output_dir@))
}

pub open spec fn run_cargo(c: CompileConfig) -> (StageModel, ActionModel) {
    (
        StageModel::Compiling,
        ActionModel::Run("cargo"@, cargo_args(c.optimization), Some(c.project_path@)),
    )
}

pub open spec fn install_target() -> (StageModel, ActionModel) {
    (StageModel::InstallingTarget, ActionModel::Run("rustup"@, add_target_args(), None))
}

pub open spec fn probe_pack() -> (StageModel, ActionModel) {
    (StageModel::ProbingPack, ActionModel::ProbeTool("wasm-pack"@))
}

pub open spec fn try_candidate(c: CompileConfig, name: Seq<char>, i: nat) -> (StageModel, ActionModel) {
    (
        StageModel::Locating(name, i),
        ActionModel::CheckPath(module_candidates(c.project_path@, c.optimization, name)[i as int]),
    )
}

/// The route a project takes once its root has been seen: cargo without
/// wasm-bindgen; trunk for a web application with a trunk configuration
/// (if trunk is there); wasm-pack otherwise.
pub open spec fn route(p: ProjectFiles) -> (StageModel, ActionModel) {
    if !uses_bindings(p) {
        (StageModel::ListingTargets, ActionModel::Run("rustup"@, list_targets_args(), None))
    } else if is_web_app(p) && has_bundler_config(p) {
        (StageModel::ProbingTrunk, ActionModel::ProbeTool("trunk"@))
    } else {
        probe_pack()
    }
}

/// The next stage and action of a session, for every answer whose
/// outcome does not rest on the manifest parser.
pub open spec fn transition(c: CompileConfig, st: StageModel, ev: Event) -> (StageModel, ActionModel) {
    let project = c.project_path@;
    let out = c.output_dir@;
    match st {
        StageModel::PreparingOutput => match ev {
            Event::Done => (StageModel::Inspecting, ActionModel::InspectProject(project)),
            Event::Failed(m) => fail(ErrorModel::Io(m@)),
            _ => unexpected(),
        },
        StageModel::Inspecting => match ev {
            Event::Project(p) => route(p),
            Event::Failed(m) => fail(ErrorModel::Io(m@)),
            _ => unexpected(),
        },
        StageModel::ListingTargets => match ev {
            Event::Exited { stdout, .. } => if occurs_in(stdout@, "wasm32-unknown-unknown"@) {
                run_cargo(c)
            } else {
                install_target()
            },
            Event::Failed(_) => install_target(),
            _ => unexpected(),
        },
        StageModel::InstallingTarget => match ev {
            Event::Exited { success, stderr, .. } => if success {
                run_cargo(c)
            } else {
                fail(ErrorModel::CompilationFailed("Failed to install wasm32 target: "@ + stderr@))
            },
            Event::Failed(m) => fail(ErrorModel::Io(m@)),
            _ => unexpected(),
        },
        StageModel::Compiling => match ev {
            Event::Exited { success, stdout, stderr } => if success {
                (StageModel::ReadingModuleName, ActionModel::ReadFile(manifest_path(project)))
            } else {
                fail(ErrorModel::CompilationFailed(failure_message(stdout@, stderr@)))
            },
            Event::Failed(m) => fail(ErrorModel::Io(m@)),
            _ => unexpected(),
        },
        StageModel::Locating(name, i) => match ev {
            Event::Available(found) => if found {
                (
                    StageModel::CopyingModule(name),
                    ActionModel::CopyFile(
                        module_candidates(project, c.optimization, name)[i as int],
                        joined(out, artifact_stem(name) + ".wasm"@),
                    ),
                )
            } else if i < 2 {
                try_candidate(c, name, i + 1)
            } else {
                (
                    StageModel::ListingProfile(name),
                    ActionModel::ListDir(profile_dir(project, c.optimization)),
                )
            },
            _ => unexpected(),
        },
        StageModel::ListingProfile(name) => {
            let tried = module_candidates(project, c.optimization, name);
            let dir = profile_dir(project, c.optimization);
            match ev {
                Event::Listing(l) => fail(
                    ErrorModel::CompilationFailed(
                        missing_module_message(
                            tried,
                            dir,
                            match l {
                                Some(names) => Some(texts(names@)),
                                None => None,
                            },
                        ),
                    ),
                ),
                Event::Failed(_) => fail(
                    ErrorModel::CompilationFailed(missing_module_message(tried, dir, None)),
                ),
                _ => unexpected(),
            }
        },
        StageModel::CopyingModule(name) => match ev {
            Event::Done => succeed(module_outputs(out, artifact_stem(name))),
            Event::Failed(m) => fail(ErrorModel::Io(m@)),
            _ => unexpected(),
        },
        StageModel::ProbingPack => match ev {
            Event::Available(found) => if found {
                (
                    StageModel::Packing,
                    ActionModel::Run(
                        "wasm-pack"@,
                        pack_args(c.optimization, out),
                        Some(project),
                    ),
                )
            } else {
                fail(ErrorModel::ToolNotFound("wasm-pack is required for wasm-bindgen projects"@))
            },
            _ => unexpected(),
        },
        StageModel::Packing => match ev {
            Event::Exited { success, stdout, stderr } => if success {
                (StageModel::ReadingPackName, ActionModel::ReadFile(manifest_path(project)))
            } else {
                fail(ErrorModel::CompilationFailed(failure_message(stdout@, stderr@)))
            },
            Event::Failed(m) => fail(ErrorModel::Io(m@)),
            _ => unexpected(),
        },
        StageModel::ProbingTrunk => match ev {
            Event::Available(found) => if found {
                (
                    StageModel::Bundling,
                    ActionModel::Run("trunk"@, trunk_args(c.optimization), Some(project)),
                )
            } else {
                probe_pack()
            },
            _ => unexpected(),
        },
        StageModel::Bundling => match ev {
            Event::Exited { success, stdout, stderr } => if success {
                (
                    StageModel::CheckingDist,
                    ActionModel::CheckPath(joined(dist_dir(project), "index.html"@)),
                )
            } else {
                fail(ErrorModel::CompilationFailed(failure_message(stdout@, stderr@)))
            },
            Event::Failed(m) => fail(ErrorModel::Io(m@)),
            _ => unexpected(),
        },
        StageModel::CheckingDist => match ev {
            Event::Available(found) => if !found {
                (
                    StageModel::CheckingOutput,
                    ActionModel::CheckPath(joined(out, "index.html"@)),
                )
            } else if dist_dir(project) != out {
                (StageModel::PreparingCopy, ActionModel::CreateDir(out))
            } else {
                succeed(bundle_outputs(out))
            },
            _ => unexpected(),
        },
        StageModel::PreparingCopy => match ev {
            Event::Done => (
                StageModel::CopyingDist,
                ActionModel::CopyTree(dist_dir(project), out),
            ),
            Event::Failed(m) => fail(ErrorModel::Io(m@)),
            _ => unexpected(),
        },
        StageModel::CopyingDist => match ev {
            Event::Done => succeed(bundle_outputs(out)),
            Event::Failed(m) => fail(ErrorModel::Io(m@)),
            _ => unexpected(),
        },
        StageModel::CheckingOutput => match ev {
            Event::Available(found) => if found {
                succeed(bundle_outputs(out))
            } else {
                fail(
                    ErrorModel::CompilationFailed(
                        "No index.html generated by trunk. Checked: "@ + joined(
                            dist_dir(project),
                            "index.html"@,
                        ) + " and "@ + joined(out, "index.html"@),
                    ),
                )
            },
            _ => unexpected(),
        },
        _ => unexpected(),
    }
}

/// Where the package name is read: a manifest that declares a package
/// name and version goes on with that name (cargo tries the module files
/// named after it; wasm-pack's outputs are named after its stem). Any other
/// manifest ends the build with `TomlParse`, naming the missing field where
/// the text parses.
pub open spec fn after_manifest(
    c: CompileConfig,
    st: StageModel,
    text: Seq<char>,
    next: (StageModel, ActionModel),
) -> bool {
    if declares_package(text) {
        match st {
            StageModel::ReadingModuleName => next == try_candidate(c, package_name_of(text), 0),
            _ => next == succeed(pack_outputs(c.output_dir@, artifact_stem(package_name_of(text)))),
        }
    } else {
        &&& next.0 == StageModel::Finished
        &&& next.1 is Finish
        &&& next.1->Finish_0 is Err
        &&& next.1->Finish_0->Err_0 is TomlParse
        &&& toml_accepts(text) ==> next.1->Finish_0->Err_0 == ErrorModel::TomlParse(
            missing_field_message(
                if package_field(text, "name"@) is None {
                    "name"@
                } else {
                    "version"@
                },
            ),
        )
    }
}

/// The step a session takes from stage `st` on answer `ev`.
pub open spec fn step_spec(
    c: CompileConfig,
    st: StageModel,
    ev: Event,
    next: (StageModel, ActionModel),
) -> bool {
    match (st, ev) {
        (StageModel::ReadingModuleName, Event::Contents(text)) => after_manifest(c, st, text@, next),
        (StageModel::ReadingPackName, Event::Contents(text)) => after_manifest(c, st, text@, next),
        (StageModel::ReadingModuleName, Event::Failed(m)) => next == fail(ErrorModel::Io(m@)),
        (StageModel::ReadingPackName, Event::Failed(m)) => next == fail(ErrorModel::Io(m@)),
        (StageModel::ReadingModuleName, _) => next == unexpected(),
        (StageModel::ReadingPackName, _) => next == unexpected(),
        _ => next == transition(c, st, ev),
    }
}

} // verus!

verus! {

/// A stage that a session can be in: a candidate index stays below three.
pub open spec fn stage_ok(st: StageModel) -> bool {
    match st {
        StageModel::Locating(_, i) => i < 3,
        _ => true,
    }
}

/// The output of `rustup target list --installed` names the wasm32 target.
pub fn lists_wasm_target(stdout: &str) -> (r: bool)
    ensures
        r == occurs_in(stdout@, "wasm32-unknown-unknown"@),
{
    contains_text(stdout, "wasm32-unknown-unknown")
}

fn owned(s: &str) -> (r: String)
    ensures
        r@ == s@,
{
    s.to_string()
}

fn cargo_arg_list(opt: OptimizationLevel) -> (r: Vec<String>)
    ensures
        texts(r@) == cargo_args(opt),
{
    let mut v = vec![owned("build"), owned("--target"), owned("wasm32-unknown-unknown")];
    match opt {
        OptimizationLevel::Debug => {},
        _ => v.push(owned("--release")),
    }
    assert(texts(v@) =~= cargo_args(opt));
    v
}

fn pack_arg_list(opt: OptimizationLevel, out: &str) -> (r: Vec<String>)
    ensures
        texts(r@) == pack_args(opt, out@),
{
    let mode = match opt {
        OptimizationLevel::Debug => owned("--dev"),
        _ => owned("--release"),
    };
    let v = vec![owned("build"), owned("--target"), owned("web"), mode, owned("--out-dir"), owned(out)];
    assert(texts(v@) =~= pack_args(opt, out@));
    v
}

fn trunk_arg_list(opt: OptimizationLevel) -> (r: Vec<String>)
    ensures
        texts(r@) == trunk_args(opt),
{
    let mut v = vec![owned("build")];
    match opt {
        OptimizationLevel::Debug => {},
        OptimizationLevel::Release => v.push(owned("--release")),
        OptimizationLevel::Size => {
            v.push(owned("--release"));
            v.push(owned("--minify"));
        },
    }
    v.push(owned("--dist"));
    v.push(owned("dist"));
    assert(texts(v@) =~= trunk_args(opt));
    v
}

fn rustup_arg_list(install: bool) -> (r: Vec<String>)
    ensures
        install ==> texts(r@) == add_target_args(),
        !install ==> texts(r@) == list_targets_args(),
{
    let v = if install {
        vec![owned("target"), owned("add"), owned("wasm32-unknown-unknown")]
    } else {
        vec![owned("target"), owned("list"), owned("--installed")]
    };
    assert(install ==> texts(v@) =~= add_target_args());
    assert(!install ==> texts(v@) =~= list_targets_args());
    v
}

fn profile_dir_path(project: &str, opt: OptimizationLevel) -> (r: String)
    ensures
        r@ == profile_dir(project@, opt),
{
    let base = join_path(project, "target/wasm32-unknown-unknown");
    let profile = match opt {
        OptimizationLevel::Debug => "debug",
        _ => "release",
    };
    join_path(base.as_str(), profile)
}

/// `dir` joined with `stem` followed by `suffix`.
fn file_in(dir: &str, stem: &str, suffix: &str) -> (r: String)
    ensures
        r@ == joined(dir@, stem@ + suffix@),
{
    let name = concat(stem, suffix);
    join_path(dir, name.as_str())
}

fn candidate_list(project: &str, opt: OptimizationLevel, name: &str) -> (r: Vec<String>)
    ensures
        texts(r@) == module_candidates(project@, opt, name@),
{
    let dir = profile_dir_path(project, opt);
    let underscored = replace_char(name, '-', '_');
    let dashed = replace_char(name, '_', '-');
    let v = vec![
        file_in(dir.as_str(), name, ".wasm"),
        file_in(dir.as_str(), underscored.as_str(), ".wasm"),
        file_in(dir.as_str(), dashed.as_str(), ".wasm"),
    ];
    assert(texts(v@) =~= module_candidates(project@, opt, name@));
    v
}

fn failure_text(stdout: &str, stderr: &str) -> (r: String)
    ensures
        r@ == failure_message(stdout@, stderr@),
{
    let mut r = concat("stdout: ", stdout);
    r.append("\nstderr: ");
    r.append(stderr);
    r
}

fn missing_module_text(tried: &Vec<String>, dir: &str, listing: Option<Vec<String>>) -> (r: String)
    ensures
        r@ == missing_module_message(
            texts(tried@),
            dir@,
            match listing {
                Some(names) => Some(texts(names@)),
                None => None,
            },
        ),
{
    let mut r = owned("WASM file not found. Tried:\n");
    let tried_lines = bullet_list(tried);
    r.append(tried_lines.as_str());
    match listing {
        Some(names) => {
            r.append("Files found in target directory:\n");
            let lines = bullet_list(&names);
            r.append(lines.as_str());
        },
        None => {
            r.append("Target directory doesn't exist: ");
            r.append(dir);
            r.append("\n");
        },
    }
    r
}

fn module_result(out: &str, name: &str) -> (r: CompileResult)
    ensures
        r@ == module_outputs(out@, artifact_stem(name@)),
{
    let stem = replace_char(name, '-', '_');
    let r = CompileResult {
        wasm_path: file_in(out, stem.as_str(), ".wasm"),
        js_path: None,
        additional_files: Vec::new(),
        is_webapp: false,
    };
    assert(r@.additional_files =~= seq![]);
    r
}

fn pack_result(out: &str, stem: &str) -> (r: CompileResult)
    ensures
        r@ == pack_outputs(out@, stem@),
{
    let r = CompileResult {
        wasm_path: file_in(out, stem, "_bg.wasm"),
        js_path: Some(file_in(out, stem, ".js")),
        additional_files: Vec::new(),
        is_webapp: false,
    };
    assert(r@.additional_files =~= seq![]);
    r
}

fn bundle_result(out: &str) -> (r: CompileResult)
    ensures
        r@ == bundle_outputs(out@),
{
    let r = CompileResult {
        wasm_path: owned(out),
        js_path: Some(join_path(out, "index.html")),
        additional_files: Vec::new(),
        is_webapp: true,
    };
    assert(r@.additional_files =~= seq![]);
    r
}

fn finish(outcome: WasmRustResult<CompileResult>) -> (r: (Stage, Action))
    ensures
        r.0@ == StageModel::Finished,
        r.1@ == ActionModel::Finish(
            match outcome {
                Ok(o) => Ok(o@),
                Err(e) => Err(e@),
            },
        ),
{
    (Stage::Finished, Action::Finish { outcome })
}

fn io_failure(m: String) -> (r: (Stage, Action))
    ensures
        (r.0@, r.1@) == fail(ErrorModel::Io(m@)),
{
    finish(Err(WasmRustError::Io(m)))
}

fn unexpected_answer() -> (r: (Stage, Action))
    ensures
        (r.0@, r.1@) == unexpected(),
{
    io_failure(owned("the host's answer does not fit the action asked of it"))
}

fn run(program: &str, args: Vec<String>, dir: Option<&str>) -> (r: Action)
    ensures
        r@ == ActionModel::Run(
            program@,
            texts(args@),
            match dir {
                Some(d) => Some(d@),
                None => None,
            },
        ),
{
    let dir = match dir {
        Some(d) => Some(owned(d)),
        None => None,
    };
    Action::Run { program: owned(program), args, dir }
}

fn candidate_step(c: &CompileConfig, name: String, i: usize) -> (r: (Stage, Action))
    requires
        i < 3,
    ensures
        (r.0@, r.1@) == try_candidate(*c, name@, i as nat),
{
    let cands = candidate_list(c.project_path.as_str(), c.optimization, name.as_str());
    assert(texts(cands@).len() == cands@.len());
    let path = cands[i].clone();
    assert(texts(cands@)[i as int] == cands@[i as int]@);
    (Stage::Locating { name, index: i }, Action::CheckPath { path })
}

fn route_step(p: &ProjectFiles) -> (r: (Stage, Action))
    ensures
        (r.0@, r.1@) == route(*p),
{
    let plugin = WasmRustPlugin::new();
    if !plugin.uses_wasm_bindgen(p) {
        (Stage::ListingTargets, run("rustup", rustup_arg_list(false), None))
    } else if plugin.is_rust_web_application(p) && (p.has_entry("Trunk.toml") || p.has_entry(
        "trunk.toml",
    )) {
        (Stage::ProbingTrunk, Action::ProbeTool { tool: owned("trunk") })
    } else {
        (Stage::ProbingPack, Action::ProbeTool { tool: owned("wasm-pack") })
    }
}

fn compile_step(c: &CompileConfig) -> (r: (Stage, Action))
    ensures
        (r.0@, r.1@) == run_cargo(*c),
{
    (
        Stage::Compiling,
        run("cargo", cargo_arg_list(c.optimization), Some(c.project_path.as_str())),
    )
}

fn install_step() -> (r: (Stage, Action))
    ensures
        (r.0@, r.1@) == install_target(),
{
    (Stage::InstallingTarget, run("rustup", rustup_arg_list(true), None))
}

} // verus!

verus! {

/// The step from the stage that reads the package name.
fn after_manifest_step(c: &CompileConfig, for_module: bool, text: String) -> (r: (Stage, Action))
    ensures
        after_manifest(
            *c,
            if for_module {
                StageModel::ReadingModuleName
            } else {
                StageModel::ReadingPackName
            },
            text@,
            (r.0@, r.1@),
        ),
        stage_ok(r.0@),
{
    if for_module {
        match read_package(text.as_str()) {
            Err(e) => finish(Err(e)),
            Ok((name, _version)) => candidate_step(c, name, 0),
        }
    } else {
        match WasmRustPlugin::new().get_package_name(text.as_str()) {
            Err(e) => finish(Err(e)),
            Ok(stem) => {
                let outputs = pack_result(c.output_dir.as_str(), stem.as_str());
                finish(Ok(outputs))
            },
        }
    }
}

/// The next stage and action from `stage` on answer `ev`.
fn advance(c: &CompileConfig, stage: Stage, ev: Event) -> (r: (Stage, Action))
    requires
        stage_ok(stage@),
        stage@ != StageModel::Finished,
    ensures
        step_spec(*c, stage@, ev, (r.0@, r.1@)),
        stage_ok(r.0@),
{
    let project = c.project_path.as_str();
    let out = c.output_dir.as_str();
    match stage {
        Stage::PreparingOutput => match ev {
            Event::Done => (Stage::Inspecting, Action::InspectProject { path: owned(project) }),
            Event::Failed(m) => io_failure(m),
            _ => unexpected_answer(),
        },
        Stage::Inspecting => match ev {
            Event::Project(p) => route_step(&p),
            Event::Failed(m) => io_failure(m),
            _ => unexpected_answer(),
        },
        Stage::ListingTargets => match ev {
            Event::Exited { stdout, .. } => {
                if lists_wasm_target(stdout.as_str()) {
                    compile_step(c)
                } else {
                    install_step()
                }
            },
            Event::Failed(_) => install_step(),
            _ => unexpected_answer(),
        },
        Stage::InstallingTarget => match ev {
            Event::Exited { success, stderr, .. } => {
                if success {
                    compile_step(c)
                } else {
                    let m = concat("Failed to install wasm32 target: ", stderr.as_str());
                    finish(Err(WasmRustError::CompilationFailed(m)))
                }
            },
            Event::Failed(m) => io_failure(m),
            _ => unexpected_answer(),
        },
        Stage::Compiling => match ev {
            Event::Exited { success, stdout, stderr } => {
                if success {
                    (Stage::ReadingModuleName, Action::ReadFile { path: join_path(project, "Cargo.toml") })
                } else {
                    let m = failure_text(stdout.as_str(), stderr.as_str());
                    finish(Err(WasmRustError::CompilationFailed(m)))
                }
            },
            Event::Failed(m) => io_failure(m),
            _ => unexpected_answer(),
        },
        Stage::ReadingModuleName => match ev {
            Event::Contents(text) => after_manifest_step(c, true, text),
            Event::Failed(m) => io_failure(m),
            _ => unexpected_answer(),
        },
        Stage::Locating { name, index } => match ev {
            Event::Available(found) => {
                if found {
                    let cands = candidate_list(project, c.optimization, name.as_str());
                    assert(texts(cands@).len() == cands@.len());
                    let from = cands[index].clone();
                    assert(texts(cands@)[index as int] == cands@[index as int]@);
                    let stem = replace_char(name.as_str(), '-', '_');
                    let to = file_in(out, stem.as_str(), ".wasm");
                    (Stage::CopyingModule { name }, Action::CopyFile { from, to })
                } else if index < 2 {
                    candidate_step(c, name, index + 1)
                } else {
                    let path = profile_dir_path(project, c.optimization);
                    (Stage::ListingProfile { name }, Action::ListDir { path })
                }
            },
            _ => unexpected_answer(),
        },
        Stage::ListingProfile { name } => {
            let tried = candidate_list(project, c.optimization, name.as_str());
            let dir = profile_dir_path(project, c.optimization);
            match ev {
                Event::Listing(l) => {
                    let m = missing_module_text(&tried, dir.as_str(), l);
                    finish(Err(WasmRustError::CompilationFailed(m)))
                },
                Event::Failed(_) => {
                    let m = missing_module_text(&tried, dir.as_str(), None);
                    finish(Err(WasmRustError::CompilationFailed(m)))
                },
                _ => unexpected_answer(),
            }
        },
        Stage::CopyingModule { name } => match ev {
            Event::Done => finish(Ok(module_result(out, name.as_str()))),
            Event::Failed(m) => io_failure(m),
            _ => unexpected_answer(),
        },
        Stage::ProbingPack => match ev {
            Event::Available(found) => {
                if found {
                    (Stage::Packing, run("wasm-pack", pack_arg_list(c.optimization, out), Some(project)))
                } else {
                    let m = owned("wasm-pack is required for wasm-bindgen projects");
                    finish(Err(WasmRustError::ToolNotFound(m)))
                }
            },
            _ => unexpected_answer(),
        },
        Stage::Packing => match ev {
            Event::Exited { success, stdout, stderr } => {
                if success {
                    (Stage::ReadingPackName, Action::ReadFile { path: join_path(project, "Cargo.toml") })
                } else {
                    let m = failure_text(stdout.as_str(), stderr.as_str());
                    finish(Err(WasmRustError::CompilationFailed(m)))
                }
            },
            Event::Failed(m) => io_failure(m),
            _ => unexpected_answer(),
        },
        Stage::ReadingPackName => match ev {
            Event::Contents(text) => after_manifest_step(c, false, text),
            Event::Failed(m) => io_failure(m),
            _ => unexpected_answer(),
        },
        Stage::ProbingTrunk => match ev {
            Event::Available(found) => {
                if found {
                    (Stage::Bundling, run("trunk", trunk_arg_list(c.optimization), Some(project)))
                } else {
                    (Stage::ProbingPack, Action::ProbeTool { tool: owned("wasm-pack") })
                }
            },
            _ => unexpected_answer(),
        },
        Stage::Bundling => match ev {
            Event::Exited { success, stdout, stderr } => {
                if success {
                    let dist = join_path(project, "dist");
                    (Stage::CheckingDist, Action::CheckPath { path: join_path(dist.as_str(), "index.html") })
                } else {
                    let m = failure_text(stdout.as_str(), stderr.as_str());
                    finish(Err(WasmRustError::CompilationFailed(m)))
                }
            },
            Event::Failed(m) => io_failure(m),
            _ => unexpected_answer(),
        },
        Stage::CheckingDist => match ev {
            Event::Available(found) => {
                let dist = join_path(project, "dist");
                if !found {
                    (Stage::CheckingOutput, Action::CheckPath { path: join_path(out, "index.html") })
                } else if dist != c.output_dir {
                    (Stage::PreparingCopy, Action::CreateDir { path: owned(out) })
                } else {
                    finish(Ok(bundle_result(out)))
                }
            },
            _ => unexpected_answer(),
        },
        Stage::PreparingCopy => match ev {
            Event::Done => (Stage::CopyingDist, Action::CopyTree { from: join_path(project, "dist"), to: owned(out) }),
            Event::Failed(m) => io_failure(m),
            _ => unexpected_answer(),
        },
        Stage::CopyingDist => match ev {
            Event::Done => finish(Ok(bundle_result(out))),
            Event::Failed(m) => io_failure(m),
            _ => unexpected_answer(),
        },
        Stage::CheckingOutput => match ev {
            Event::Available(found) => {
                if found {
                    finish(Ok(bundle_result(out)))
                } else {
                    let dist = join_path(project, "dist");
                    let in_dist = join_path(dist.as_str(), "index.html");
                    let in_out = join_path(out, "index.html");
                    let mut m = concat("No index.html generated by trunk. Checked: ", in_dist.as_str());
                    m.append(" and ");
                    m.append(in_out.as_str());
                    finish(Err(WasmRustError::CompilationFailed(m)))
                }
            },
            _ => unexpected_answer(),
        },
        Stage::Finished => unexpected_answer(),
    }
}

impl BuildSession {
    /// The request this session serves.
    pub closed spec fn config_model(&self) -> CompileConfig {
        self.config
    }

    /// Where this session stands.
    pub closed spec fn stage_model(&self) -> StageModel {
        self.stage@
    }

    #[verifier::type_invariant]
    spec fn well_formed(&self) -> bool {
        stage_ok(self.stage@)
    }

    /// A session for one build, with the first action it asks for: the
    /// creation of the output directory.
    pub fn start(config: CompileConfig) -> (r: (BuildSession, Action))
        ensures
            r.0.config_model() == config,
            (r.0.stage_model(), r.1@) == first_step(config),
    {
        let path = owned(config.output_dir.as_str());
        (BuildSession { config, stage: Stage::PreparingOutput }, Action::CreateDir { path })
    }

    /// The session has handed out its outcome.
    pub fn is_finished(&self) -> (r: bool)
        ensures
            r == (self.stage_model() == StageModel::Finished),
    {
        match self.stage {
            Stage::Finished => true,
            _ => false,
        }
    }

    /// Takes the answer to the last action and gives the next action.
    pub fn step(&mut self, ev: Event) -> (r: Action)
        requires
            old(self).stage_model() != StageModel::Finished,
        ensures
            final(self).config_model() == old(self).config_model(),
            step_spec(old(self).config_model(), old(self).stage_model(), ev, (final(self).stage_model(), r@)),
    {
        proof {
            use_type_invariant(&*self);
        }
        let mut stage = Stage::Finished;
        std::mem::swap(&mut stage, &mut self.stage);
        let (next, action) = advance(&self.config, stage, ev);
        self.stage = next;
        action
    }
}

} // verus!

verus! {

/// `s` ends with `suffix`.
pub open spec fn ends_with(s: Seq<char>, suffix: Seq<char>) -> bool {
    suffix.len() <= s.len() && s.subrange(s.len() - suffix.len(), s.len() as int) == suffix
}

/// The stages of a cargo build, from the target check to the copy.
pub open spec fn on_cargo_route(st: StageModel) -> bool {
    match st {
        StageModel::ListingTargets => true,
        StageModel::InstallingTarget => true,
        StageModel::Compiling => true,
        StageModel::ReadingModuleName => true,
        StageModel::Locating(_, _) => true,
        StageModel::ListingProfile(_) => true,
        StageModel::CopyingModule(_) => true,
        _ => false,
    }
}

/// Size and Release hand cargo the same arguments.
pub proof fn law_size_builds_like_release_with_cargo()
    ensures
        cargo_args(OptimizationLevel::Size) == cargo_args(OptimizationLevel::Release),
{
}

pub proof fn lemma_joined_ends_with(base: Seq<char>, child: Seq<char>)
    ensures
        ends_with(joined(base, child), child),
{
    let j = joined(base, child);
    assert(j.subrange(j.len() - child.len(), j.len() as int) =~= child);
}

/// Once the root of a project classified as a standard module has been
/// seen, the session takes the cargo route.
pub proof fn law_standard_project_takes_cargo_route(
    c: CompileConfig,
    t: Seq<char>,
    p: ProjectFiles,
    next: (StageModel, ActionModel),
)
    requires
        p.manifest_text() == Some(t),
        crate::classify::category(t, p) == crate::types::ProjectType::StandardWasm,
        step_spec(c, StageModel::Inspecting, Event::Project(p), next),
    ensures
        on_cargo_route(next.0),
{
}

/// The package name that a stage of the cargo route carries once read.
pub open spec fn carried_name(st: StageModel) -> Option<Seq<char>> {
    match st {
        StageModel::Locating(name, _) => Some(name),
        StageModel::ListingProfile(name) => Some(name),
        StageModel::CopyingModule(name) => Some(name),
        _ => None,
    }
}

/// Once cargo has built, the session reads the manifest again; where it
/// declares a package, the module is looked for under that package's name.
pub proof fn law_manifest_names_the_module(
    c: CompileConfig,
    text: String,
    next: (StageModel, ActionModel),
)
    requires
        declares_package(text@),
        step_spec(c, StageModel::ReadingModuleName, Event::Contents(text), next),
    ensures
        on_cargo_route(next.0),
        carried_name(next.0) == Some(package_name_of(text@)),
{
}

/// On the cargo route a session stays there until it finishes, keeps the
/// package name it read, and when it finishes with success its primary
/// output is the module copied into the output directory:
/// `<output_dir>/<name with - turned into _>.wasm`.
pub proof fn law_cargo_route_yields_module(
    c: CompileConfig,
    st: StageModel,
    ev: Event,
    next: (StageModel, ActionModel),
)
    requires
        on_cargo_route(st),
        stage_ok(st),
        step_spec(c, st, ev, next),
    ensures
        on_cargo_route(next.0) || next.0 == StageModel::Finished,
        carried_name(st) is Some && carried_name(next.0) is Some ==> carried_name(next.0)
            == carried_name(st),
        next.1 is Finish && next.1->Finish_0 is Ok ==> {
            let r = next.1->Finish_0->Ok_0;
            let stem = artifact_stem(carried_name(st)->Some_0);
            &&& carried_name(st) is Some
            &&& r == module_outputs(c.output_dir@, stem)
            &&& primary_path(r) == joined(c.output_dir@, stem + ".wasm"@)
            &&& ends_with(primary_path(r), ".wasm"@)
        },
{
    if next.1 is Finish && next.1->Finish_0 is Ok {
        if let StageModel::CopyingModule(name) = st {
            reveal_strlit(".wasm");
            let file = artifact_stem(name) + ".wasm"@;
            let j = joined(c.output_dir@, file);
            lemma_joined_ends_with(c.output_dir@, file);
            assert(j.subrange(j.len() - 5, j.len() as int) =~= file.subrange(
                file.len() - 5,
                file.len() as int,
            ));
            assert(file.subrange(file.len() - 5, file.len() as int) =~= ".wasm"@);
        }
    }
}

} // verus!
