use wasmrust::{
    Action, BuildConfig, BuildSession, BuildStrategy, CompilationError, CompileConfig,
    CompileResult, Event, OptimizationLevel, ProjectFiles, ProjectType, TargetType, Toolchain,
    WasmRustError, WasmRustPlugin, WasmrustBuilder,
};

fn files(manifest: &str, entries: &[&str]) -> ProjectFiles {
    let mut all = vec!["Cargo.toml".to_string()];
    for e in entries {
        all.push(e.to_string());
    }
    ProjectFiles { manifest: Some(manifest.to_string()), entries: all }
}

fn all_tools(present: bool) -> Toolchain {
    Toolchain {
        cargo: present,
        rustc: present,
        wasm_target: present,
        wasm_pack: present,
        trunk: present,
        rustup: present,
        wasm_opt: present,
    }
}

fn config(opt: OptimizationLevel) -> CompileConfig {
    CompileConfig {
        project_path: "/work/app".to_string(),
        output_dir: "/work/out".to_string(),
        optimization: opt,
        target_type: TargetType::Wasm,
        verbose: false,
    }
}

fn strings(v: &[&str]) -> Vec<String> {
    v.iter().map(|s| s.to_string()).collect()
}

fn exited(success: bool, stdout: &str, stderr: &str) -> Event {
    Event::Exited { success, stdout: stdout.to_string(), stderr: stderr.to_string() }
}

const PLAIN: &str = "[package]\nname = \"t\"\nversion = \"0.1.0\"\n";
const BINDINGS: &str =
    "[package]\nname = \"my-crate\"\nversion = \"0.2.0\"\n\n[dependencies]\nwasm-bindgen = \"0.2\"\njs-sys = \"0.3\"\n";
const LEPTOS: &str =
    "[package]\nname = \"site\"\nversion = \"0.1.0\"\n\n[dependencies]\nleptos = \"0.6\"\nwasm-bindgen = \"0.2\"\n";

/// Drives a session from its start until it asks to run cargo.
fn session_at_cargo(opt: OptimizationLevel, manifest: &str) -> (BuildSession, Action) {
    let (mut s, first) = BuildSession::start(config(opt));
    assert_eq!(first, Action::CreateDir { path: "/work/out".to_string() });
    let a = s.step(Event::Done);
    assert_eq!(a, Action::InspectProject { path: "/work/app".to_string() });
    let a = s.step(Event::Project(files(manifest, &["src"])));
    assert_eq!(
        a,
        Action::Run {
            program: "rustup".to_string(),
            args: strings(&["target", "list", "--installed"]),
            dir: None,
        }
    );
    let a = s.step(exited(true, "x86_64-unknown-linux-gnu\nwasm32-unknown-unknown\n", ""));
    (s, a)
}

#[test]
fn scenario_plain_manifest_is_standard_with_three_required_tools() {
    let plugin = WasmRustPlugin::new();
    let info = plugin.inspect_project(&files(PLAIN, &[]), &all_tools(true)).unwrap();
    assert_eq!(info.name, "t");
    assert_eq!(info.version, "0.1.0");
    assert_eq!(info.project_type, ProjectType::StandardWasm);
    assert_eq!(info.build_strategy, BuildStrategy::Cargo);
    assert!(info.frameworks.is_empty());
    let names: Vec<&str> = info.dependencies.required.iter().map(|c| c.name.as_str()).collect();
    assert_eq!(names, vec!["cargo", "rustc", "wasm32-unknown-unknown"]);
}

#[test]
fn scenario_bindings_manifest_is_bindings_module() {
    let plugin = WasmRustPlugin::new();
    let info = plugin.inspect_project(&files(BINDINGS, &["src"]), &all_tools(true)).unwrap();
    assert_eq!(info.project_type, ProjectType::WasmBindgen);
    assert_eq!(info.build_strategy, BuildStrategy::WasmPack);
}

#[test]
fn scenario_framework_with_entry_page_is_web_application() {
    let plugin = WasmRustPlugin::new();
    let info = plugin.inspect_project(&files(LEPTOS, &["index.html"]), &all_tools(true)).unwrap();
    assert_eq!(info.project_type, ProjectType::WebApplication);
    assert_eq!(info.build_strategy, BuildStrategy::WasmPack);
    assert_eq!(info.frameworks, strings(&["leptos"]));
}

#[test]
fn scenario_missing_module_lists_three_paths() {
    let (mut s, a) = session_at_cargo(OptimizationLevel::Debug, "[package]\nname = \"my-app\"\nversion = \"1.0.0\"\n");
    assert!(matches!(a, Action::Run { ref program, .. } if program == "cargo"));
    let a = s.step(exited(true, "", ""));
    assert_eq!(a, Action::ReadFile { path: "/work/app/Cargo.toml".to_string() });
    let a = s.step(Event::Contents("[package]\nname = \"my-app\"\nversion = \"1.0.0\"\n".to_string()));
    let dir = "/work/app/target/wasm32-unknown-unknown/debug";
    assert_eq!(a, Action::CheckPath { path: format!("{dir}/my-app.wasm") });
    let a = s.step(Event::Available(false));
    assert_eq!(a, Action::CheckPath { path: format!("{dir}/my_app.wasm") });
    let a = s.step(Event::Available(false));
    assert_eq!(a, Action::CheckPath { path: format!("{dir}/my-app.wasm") });
    let a = s.step(Event::Available(false));
    assert_eq!(a, Action::ListDir { path: dir.to_string() });
    let a = s.step(Event::Listing(Some(strings(&["other.wasm"]))));
    let expected = format!(
        "WASM file not found. Tried:\n  - {dir}/my-app.wasm\n  - {dir}/my_app.wasm\n  - {dir}/my-app.wasm\nFiles found in target directory:\n  - other.wasm\n"
    );
    assert_eq!(a, Action::Finish { outcome: Err(WasmRustError::CompilationFailed(expected)) });
    assert!(s.is_finished());
}

#[test]
fn missing_profile_directory_is_reported() {
    let (mut s, _) = session_at_cargo(OptimizationLevel::Release, PLAIN);
    s.step(exited(true, "", ""));
    s.step(Event::Contents(PLAIN.to_string()));
    s.step(Event::Available(false));
    s.step(Event::Available(false));
    s.step(Event::Available(false));
    let a = s.step(Event::Listing(None));
    match a {
        Action::Finish { outcome: Err(WasmRustError::CompilationFailed(m)) } => {
            assert!(m.ends_with(
                "Target directory doesn't exist: /work/app/target/wasm32-unknown-unknown/release\n"
            ));
        }
        other => panic!("unexpected action {other:?}"),
    }
}

#[test]
fn plain_manifest_is_standard_whatever_the_root_holds() {
    let plugin = WasmRustPlugin::new();
    let project = files(PLAIN, &["index.html", "dist", "Trunk.toml", "static"]);
    let (kind, frameworks) = plugin.detect_project_type_and_frameworks(&project, PLAIN);
    assert_eq!(kind, ProjectType::StandardWasm);
    assert!(frameworks.is_empty());
    assert_eq!(plugin.determine_build_strategy(&project, &kind), BuildStrategy::Cargo);
}

#[test]
fn framework_named_in_a_description_still_counts() {
    let plugin = WasmRustPlugin::new();
    let text = "[package]\nname = \"t\"\nversion = \"0.1.0\"\ndescription = \"not a yew app\"\n";
    let (kind, frameworks) = plugin.detect_project_type_and_frameworks(&files(text, &[]), text);
    assert_eq!(kind, ProjectType::WebApplication);
    assert_eq!(frameworks, strings(&["yew"]));
}

#[test]
fn frameworks_are_reported_in_registry_order_with_trunk_last() {
    let plugin = WasmRustPlugin::new();
    let text = "trunk = 1\nsmithy = 1\nleptos = 1\nyew = 1\n";
    let (_, frameworks) = plugin.detect_project_type_and_frameworks(&files(text, &[]), text);
    assert_eq!(frameworks, strings(&["yew", "leptos", "smithy", "trunk"]));
}

#[test]
fn bindings_without_web_signs_is_a_module() {
    let plugin = WasmRustPlugin::new();
    let text = "[lib]\ncrate-type = [\"cdylib\"]\n[dependencies]\nweb-sys = \"0.3\"\n";
    let project = files(text, &["src"]);
    let (kind, _) = plugin.detect_project_type_and_frameworks(&project, text);
    assert_eq!(kind, ProjectType::WasmBindgen);
    assert_eq!(plugin.determine_build_strategy(&project, &kind), BuildStrategy::WasmPack);
    // The same library beside a static asset directory is a web application.
    let with_assets = files(text, &["src", "www"]);
    assert!(plugin.is_rust_web_application(&with_assets));
    let (kind, _) = plugin.detect_project_type_and_frameworks(&with_assets, text);
    assert_eq!(kind, ProjectType::WebApplication);
}

#[test]
fn web_application_needs_the_bindings_signature() {
    let plugin = WasmRustPlugin::new();
    let text = "[dependencies]\nyew = \"0.21\"\n";
    assert!(!plugin.is_rust_web_application(&files(text, &["index.html"])));
    assert!(!plugin.uses_wasm_bindgen(&files(text, &[])));
}

#[test]
fn bundler_config_selects_trunk_for_web_applications() {
    let plugin = WasmRustPlugin::new();
    let kind = ProjectType::WebApplication;
    assert_eq!(plugin.determine_build_strategy(&files(LEPTOS, &["Trunk.toml"]), &kind), BuildStrategy::Trunk);
    assert_eq!(plugin.determine_build_strategy(&files(LEPTOS, &["trunk.toml"]), &kind), BuildStrategy::Trunk);
    assert_eq!(plugin.determine_build_strategy(&files(LEPTOS, &["TRUNK.toml"]), &kind), BuildStrategy::WasmPack);
    let info = plugin.inspect_project(&files(LEPTOS, &["Trunk.toml"]), &all_tools(false)).unwrap();
    assert_eq!(info.build_strategy, BuildStrategy::Trunk);
}

#[test]
fn size_and_release_hand_cargo_the_same_flags() {
    let (_, size) = session_at_cargo(OptimizationLevel::Size, PLAIN);
    let (_, release) = session_at_cargo(OptimizationLevel::Release, PLAIN);
    let (_, debug) = session_at_cargo(OptimizationLevel::Debug, PLAIN);
    assert_eq!(size, release);
    assert_eq!(
        release,
        Action::Run {
            program: "cargo".to_string(),
            args: strings(&["build", "--target", "wasm32-unknown-unknown", "--release"]),
            dir: Some("/work/app".to_string()),
        }
    );
    assert_eq!(
        debug,
        Action::Run {
            program: "cargo".to_string(),
            args: strings(&["build", "--target", "wasm32-unknown-unknown"]),
            dir: Some("/work/app".to_string()),
        }
    );
}

#[test]
fn audit_follows_the_strategy() {
    let plugin = WasmRustPlugin::new();
    let tools = all_tools(false);
    let names = |v: &Vec<wasmrust::DependencyCheck>| -> Vec<String> { v.iter().map(|c| c.name.clone()).collect() };
    let trunk = plugin.check_dependencies_comprehensive(&ProjectType::WebApplication, &BuildStrategy::Trunk, &tools);
    assert_eq!(names(&trunk.required), strings(&["cargo", "rustc", "wasm32-unknown-unknown", "trunk"]));
    assert_eq!(names(&trunk.optional), strings(&["wasm-pack", "rustup", "wasm-opt"]));
    let pack = plugin.check_dependencies_comprehensive(&ProjectType::WasmBindgen, &BuildStrategy::WasmPack, &tools);
    assert_eq!(names(&pack.required), strings(&["cargo", "rustc", "wasm32-unknown-unknown", "wasm-pack"]));
    assert_eq!(names(&pack.optional), strings(&["rustup", "wasm-opt"]));
    let cargo = plugin.check_dependencies_comprehensive(&ProjectType::StandardWasm, &BuildStrategy::Cargo, &tools);
    assert_eq!(names(&cargo.required), strings(&["cargo", "rustc", "wasm32-unknown-unknown"]));
    assert_eq!(cargo.optional[0].reason, "Useful for advanced WASM features");
    assert!(cargo.required.iter().all(|c| !c.available));
}

#[test]
fn availability_comes_from_the_toolchain_report() {
    let plugin = WasmRustPlugin::new();
    let mut tools = all_tools(true);
    tools.rustc = false;
    let status = plugin.check_dependencies_comprehensive(&ProjectType::StandardWasm, &BuildStrategy::Cargo, &tools);
    let flags: Vec<bool> = status.required.iter().map(|c| c.available).collect();
    assert_eq!(flags, vec![true, false, true]);
}

#[test]
fn standard_build_round_trip_points_at_module_in_output() {
    let manifest = "[package]\nname = \"my-app\"\nversion = \"1.0.0\"\n";
    let plugin = WasmRustPlugin::new();
    let (kind, _) = plugin.detect_project_type_and_frameworks(&files(manifest, &["src"]), manifest);
    assert_eq!(kind, ProjectType::StandardWasm);
    let (mut s, _) = session_at_cargo(OptimizationLevel::Release, manifest);
    s.step(exited(true, "", ""));
    let a = s.step(Event::Contents(manifest.to_string()));
    assert_eq!(
        a,
        Action::CheckPath { path: "/work/app/target/wasm32-unknown-unknown/release/my-app.wasm".to_string() }
    );
    let a = s.step(Event::Available(false));
    assert_eq!(
        a,
        Action::CheckPath { path: "/work/app/target/wasm32-unknown-unknown/release/my_app.wasm".to_string() }
    );
    let a = s.step(Event::Available(true));
    assert_eq!(
        a,
        Action::CopyFile {
            from: "/work/app/target/wasm32-unknown-unknown/release/my_app.wasm".to_string(),
            to: "/work/out/my_app.wasm".to_string(),
        }
    );
    let a = s.step(Event::Done);
    let result = match a {
        Action::Finish { outcome: Ok(r) } => r,
        other => panic!("unexpected action {other:?}"),
    };
    let primary = plugin.get_primary_output_file(&result).unwrap();
    assert_eq!(primary, "/work/out/my_app.wasm");
    assert!(primary.ends_with(".wasm"));
}

#[test]
fn missing_target_is_installed_before_compiling() {
    let (mut s, _) = BuildSession::start(config(OptimizationLevel::Debug));
    s.step(Event::Done);
    s.step(Event::Project(files(PLAIN, &[])));
    let a = s.step(exited(true, "x86_64-unknown-linux-gnu\n", ""));
    assert_eq!(
        a,
        Action::Run {
            program: "rustup".to_string(),
            args: strings(&["target", "add", "wasm32-unknown-unknown"]),
            dir: None,
        }
    );
    let a = s.step(exited(false, "", "no network"));
    assert_eq!(
        a,
        Action::Finish {
            outcome: Err(WasmRustError::CompilationFailed("Failed to install wasm32 target: no network".to_string())),
        }
    );
}

#[test]
fn failing_compiler_reports_both_streams() {
    let (mut s, _) = session_at_cargo(OptimizationLevel::Debug, PLAIN);
    let a = s.step(exited(false, "out text", "err text"));
    assert_eq!(
        a,
        Action::Finish {
            outcome: Err(WasmRustError::CompilationFailed("stdout: out text\nstderr: err text".to_string())),
        }
    );
}

#[test]
fn bindings_build_uses_wasm_pack_and_underscored_names() {
    let (mut s, _) = BuildSession::start(config(OptimizationLevel::Debug));
    s.step(Event::Done);
    let a = s.step(Event::Project(files(BINDINGS, &["src"])));
    assert_eq!(a, Action::ProbeTool { tool: "wasm-pack".to_string() });
    let a = s.step(Event::Available(true));
    assert_eq!(
        a,
        Action::Run {
            program: "wasm-pack".to_string(),
            args: strings(&["build", "--target", "web", "--dev", "--out-dir", "/work/out"]),
            dir: Some("/work/app".to_string()),
        }
    );
    s.step(exited(true, "", ""));
    let a = s.step(Event::Contents(BINDINGS.to_string()));
    assert_eq!(
        a,
        Action::Finish {
            outcome: Ok(CompileResult {
                wasm_path: "/work/out/my_crate_bg.wasm".to_string(),
                js_path: Some("/work/out/my_crate.js".to_string()),
                additional_files: vec![],
                is_webapp: false,
            }),
        }
    );
}

#[test]
fn absent_wasm_pack_is_tool_not_found() {
    let (mut s, _) = BuildSession::start(config(OptimizationLevel::Release));
    s.step(Event::Done);
    s.step(Event::Project(files(BINDINGS, &[])));
    let a = s.step(Event::Available(false));
    assert_eq!(
        a,
        Action::Finish {
            outcome: Err(WasmRustError::ToolNotFound("wasm-pack is required for wasm-bindgen projects".to_string())),
        }
    );
}

#[test]
fn trunk_build_copies_dist_into_output() {
    let (mut s, _) = BuildSession::start(config(OptimizationLevel::Size));
    s.step(Event::Done);
    let a = s.step(Event::Project(files(LEPTOS, &["Trunk.toml", "index.html"])));
    assert_eq!(a, Action::ProbeTool { tool: "trunk".to_string() });
    let a = s.step(Event::Available(true));
    assert_eq!(
        a,
        Action::Run {
            program: "trunk".to_string(),
            args: strings(&["build", "--release", "--minify", "--dist", "dist"]),
            dir: Some("/work/app".to_string()),
        }
    );
    let a = s.step(exited(true, "", ""));
    assert_eq!(a, Action::CheckPath { path: "/work/app/dist/index.html".to_string() });
    let a = s.step(Event::Available(true));
    assert_eq!(a, Action::CreateDir { path: "/work/out".to_string() });
    let a = s.step(Event::Done);
    assert_eq!(a, Action::CopyTree { from: "/work/app/dist".to_string(), to: "/work/out".to_string() });
    let a = s.step(Event::Done);
    let expected = CompileResult {
        wasm_path: "/work/out".to_string(),
        js_path: Some("/work/out/index.html".to_string()),
        additional_files: vec![],
        is_webapp: true,
    };
    assert_eq!(a, Action::Finish { outcome: Ok(expected.clone()) });
    assert_eq!(WasmRustPlugin::new().get_primary_output_file(&expected).unwrap(), "/work/out");
}

#[test]
fn trunk_without_entry_page_names_both_places() {
    let (mut s, _) = BuildSession::start(config(OptimizationLevel::Debug));
    s.step(Event::Done);
    s.step(Event::Project(files(LEPTOS, &["trunk.toml"])));
    s.step(Event::Available(true));
    s.step(exited(true, "", ""));
    let a = s.step(Event::Available(false));
    assert_eq!(a, Action::CheckPath { path: "/work/out/index.html".to_string() });
    let a = s.step(Event::Available(false));
    assert_eq!(
        a,
        Action::Finish {
            outcome: Err(WasmRustError::CompilationFailed(
                "No index.html generated by trunk. Checked: /work/app/dist/index.html and /work/out/index.html".to_string()
            )),
        }
    );
}

#[test]
fn absent_trunk_falls_back_to_wasm_pack() {
    let (mut s, _) = BuildSession::start(config(OptimizationLevel::Debug));
    s.step(Event::Done);
    s.step(Event::Project(files(LEPTOS, &["Trunk.toml"])));
    let a = s.step(Event::Available(false));
    assert_eq!(a, Action::ProbeTool { tool: "wasm-pack".to_string() });
}

#[test]
fn output_dir_failure_is_io() {
    let (mut s, _) = BuildSession::start(config(OptimizationLevel::Debug));
    let a = s.step(Event::Failed("permission denied".to_string()));
    assert_eq!(a, Action::Finish { outcome: Err(WasmRustError::Io("permission denied".to_string())) });
}

#[test]
fn answer_that_does_not_fit_ends_the_session() {
    let (mut s, _) = BuildSession::start(config(OptimizationLevel::Debug));
    let a = s.step(Event::Available(true));
    assert!(matches!(a, Action::Finish { outcome: Err(WasmRustError::Io(_)) }));
    assert!(s.is_finished());
}

#[test]
fn inspection_errors() {
    let plugin = WasmRustPlugin::new();
    let tools = all_tools(true);
    let none = ProjectFiles { manifest: None, entries: vec![] };
    assert_eq!(
        plugin.inspect_project(&none, &tools).unwrap_err(),
        WasmRustError::InvalidProject("No Cargo.toml found".to_string())
    );
    let unreadable = ProjectFiles { manifest: None, entries: strings(&["Cargo.toml"]) };
    assert!(matches!(plugin.inspect_project(&unreadable, &tools), Err(WasmRustError::Io(_))));
    let broken = files("[package\nname = ", &[]);
    assert!(matches!(plugin.inspect_project(&broken, &tools), Err(WasmRustError::TomlParse(_))));
    let no_version = files("[package]\nname = \"t\"\n", &[]);
    assert_eq!(
        plugin.get_project_info(&no_version, &tools).unwrap_err(),
        WasmRustError::TomlParse("`package.version` is missing or is not a string".to_string())
    );
    let no_package = files("[dependencies]\n", &[]);
    assert_eq!(
        plugin.inspect_project(&no_package, &tools).unwrap_err(),
        WasmRustError::TomlParse("`package.name` is missing or is not a string".to_string())
    );
}

#[test]
fn missing_tools_are_listed() {
    let plugin = WasmRustPlugin::new();
    let mut tools = all_tools(true);
    assert!(plugin.check_dependencies(&tools).is_empty());
    assert!(plugin.verify_dependencies(&tools).is_ok());
    tools.cargo = false;
    tools.wasm_target = false;
    assert_eq!(
        plugin.check_dependencies(&tools),
        strings(&["cargo (Rust toolchain)", "wasm32-unknown-unknown target"])
    );
    assert_eq!(
        plugin.verify_dependencies(&tools).unwrap_err(),
        WasmRustError::ToolNotFound(
            "Missing dependencies: cargo (Rust toolchain), wasm32-unknown-unknown target".to_string()
        )
    );
}

#[test]
fn watch_paths_follow_the_root() {
    let plugin = WasmRustPlugin::new();
    let project = files(PLAIN, &["src", "public", "Trunk.toml", "assets", "README.md"]);
    assert_eq!(
        plugin.get_watch_paths("/p/", &project),
        strings(&["/p/Cargo.toml", "/p/src", "/p/Trunk.toml", "/p/assets", "/p/public"])
    );
}

#[test]
fn error_texts() {
    assert_eq!(WasmRustError::ToolNotFound("x".to_string()).message(), "Tool not found: x");
    assert_eq!(WasmRustError::TomlParse("y".to_string()).message(), "TOML parse error: y");
    let builder = WasmrustBuilder::new();
    let e = builder.build_error(&WasmRustError::CompilationFailed("boom".to_string()));
    assert_eq!(
        e,
        CompilationError::BuildFailed { language: "rust".to_string(), reason: "Compilation failed: boom".to_string() }
    );
    assert_eq!(e.message(), "Build failed for rust: Compilation failed: boom");
    let bad = builder.validate_project("/nowhere", &ProjectFiles { manifest: None, entries: vec![] });
    assert_eq!(
        bad.unwrap_err().message(),
        "Build failed for rust: Project at '/nowhere' is not a valid Rust project"
    );
}

#[test]
fn module_entry_picks_the_first_wasm_file() {
    let builder = WasmrustBuilder::new();
    assert_eq!(builder.module_entry(&strings(&["index.html", ".wasm", "app_bg.wasm", "b.wasm"])), Some(2));
    assert_eq!(builder.module_entry(&strings(&["index.html", "wasm"])), None);
}

#[test]
fn host_config_becomes_a_compile_request() {
    let builder = WasmrustBuilder::new();
    let request = BuildConfig {
        input: "/work/app".to_string(),
        output_dir: "/work/out".to_string(),
        optimization: OptimizationLevel::Size,
        target_type: "webapp".to_string(),
        verbose: true,
        watch: false,
    };
    let c = builder.compile_config(&request, &files(PLAIN, &[]));
    assert_eq!(c.target_type, TargetType::WebApp);
    assert_eq!(c.project_path, "/work/app");
    assert_eq!(c.optimization, OptimizationLevel::Size);
    let wasm = BuildConfig { target_type: "wasm".to_string(), ..request };
    assert_eq!(builder.compile_config(&wasm, &files(PLAIN, &[])).target_type, TargetType::Wasm);
    assert_eq!(builder.compile_config(&wasm, &files(LEPTOS, &[])).target_type, TargetType::WebApp);
}

#[test]
fn host_result_prefers_the_script() {
    let builder = WasmrustBuilder::new();
    let r = builder.build_result(
        CompileResult {
            wasm_path: "/o/a_bg.wasm".to_string(),
            js_path: Some("/o/a.js".to_string()),
            additional_files: vec![],
            is_webapp: false,
        },
        OptimizationLevel::Release,
        std::time::Duration::from_millis(5),
        42,
    );
    assert_eq!(r.output_path, "/o/a.js");
    assert_eq!(r.language, "rust");
    assert_eq!(r.file_size, 42);
}

#[test]
fn output_dir_with_trailing_slash_gets_no_double_slash() {
    let (mut s, _) = BuildSession::start(CompileConfig {
        output_dir: "/work/out/".to_string(),
        ..config(OptimizationLevel::Debug)
    });
    s.step(Event::Done);
    s.step(Event::Project(files(BINDINGS, &[])));
    s.step(Event::Available(true));
    s.step(exited(true, "", ""));
    match s.step(Event::Contents(BINDINGS.to_string())) {
        Action::Finish { outcome: Ok(r) } => assert_eq!(r.wasm_path, "/work/out/my_crate_bg.wasm"),
        other => panic!("unexpected action {other:?}"),
    }
}

#[test]
fn module_names_start_from_the_declared_name() {
    let manifest = "[package]\nname = \"a-b_c\"\nversion = \"0.1.0\"\n";
    let (mut s, _) = session_at_cargo(OptimizationLevel::Debug, manifest);
    s.step(exited(true, "", ""));
    let dir = "/work/app/target/wasm32-unknown-unknown/debug";
    assert_eq!(s.step(Event::Contents(manifest.to_string())), Action::CheckPath { path: format!("{dir}/a-b_c.wasm") });
    assert_eq!(s.step(Event::Available(false)), Action::CheckPath { path: format!("{dir}/a_b_c.wasm") });
    assert_eq!(s.step(Event::Available(false)), Action::CheckPath { path: format!("{dir}/a-b-c.wasm") });
    assert_eq!(
        s.step(Event::Available(true)),
        Action::CopyFile { from: format!("{dir}/a-b-c.wasm"), to: "/work/out/a_b_c.wasm".to_string() }
    );
}

#[test]
fn manifest_without_package_ends_the_build() {
    let (mut s, _) = session_at_cargo(OptimizationLevel::Debug, PLAIN);
    s.step(exited(true, "", ""));
    let a = s.step(Event::Contents("[dependencies]\n".to_string()));
    assert_eq!(
        a,
        Action::Finish {
            outcome: Err(WasmRustError::TomlParse("`package.name` is missing or is not a string".to_string())),
        }
    );
}

#[test]
fn package_name_is_read_with_hyphens_as_underscores() {
    let plugin = WasmRustPlugin::new();
    assert_eq!(plugin.get_package_name(BINDINGS).unwrap(), "my_crate");
    assert!(matches!(plugin.get_package_name("name = "), Err(WasmRustError::TomlParse(_))));
}
