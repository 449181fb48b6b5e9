use vstd::prelude::*;

use crate::text::{contains_text, occurs_in};
use crate::plugin::WasmRustPlugin;
use crate::types::{BuildStrategy, ProjectType};

verus! {

/// What the host saw at a project's root: the text of `Cargo.toml` when that
/// file could be read, and the names of the root's entries.
#[derive(Debug, Clone, PartialEq, Eq)]
pub struct ProjectFiles {
    pub manifest: Option<String>,
    pub entries: Vec<String>,
}

impl ProjectFiles {
    /// An entry of this name stands at the root.
    pub open spec fn holds(&self, name: Seq<char>) -> bool {
        exists|i: int| 0 <= i < self.entries@.len() && #[trigger] self.entries@[i]@ == name
    }

    pub fn has_entry(&self, name: &str) -> (r: bool)
        ensures
            r == self.holds(name@),
    {
        let target = name.to_string();
        let mut i: usize = 0;
        while i < self.entries.len()
            invariant
                i <= self.entries@.len(),
                target@ == name@,
                forall|j: int| 0 <= j < i ==> self.entries@[j]@ != name@,
            decreases self.entries@.len() - i,
        {
            if self.entries[i] == target {
                return true;
            }
            i += 1;
        }
        false
    }

    /// The manifest's text, or nothing where it could not be read.
    pub open spec fn manifest_text(&self) -> Option<Seq<char>> {
        match self.manifest {
            Some(t) => Some(t@),
            None => None,
        }
    }
}

/// The names whose mention marks a dependency on wasm-bindgen.
pub open spec fn mentions_bindings(t: Seq<char>) -> bool {
    occurs_in(t, "wasm-bindgen"@) || occurs_in(t, "web-sys"@) || occurs_in(t, "js-sys"@)
}

/// The web frameworks recognised in a manifest, in the order they are reported.
pub open spec fn framework_markers() -> Seq<Seq<char>> {
    seq![
        "yew"@,
        "leptos"@,
        "dioxus"@,
        "sycamore"@,
        "mogwai"@,
        "seed"@,
        "percy"@,
        "iced"@,
        "dodrio"@,
        "smithy"@,
    ]
}

/// The name of the application bundler, reported as a framework too.
pub open spec fn bundler_marker() -> Seq<char> {
    "trunk"@
}

/// Every name whose mention makes a web application.
pub open spec fn web_markers() -> Seq<Seq<char>> {
    framework_markers().push(bundler_marker())
}

/// Some web marker occurs in the text.
pub open spec fn mentions_web_marker(t: Seq<char>) -> bool {
    exists|i: int| 0 <= i < web_markers().len() && occurs_in(t, #[trigger] web_markers()[i])
}

/// Those of `names` that occur in `t`, in their order.
pub open spec fn found_in(t: Seq<char>, names: Seq<Seq<char>>) -> Seq<Seq<char>>
    decreases names.len(),
{
    if names.len() == 0 {
        seq![]
    } else {
        let before = found_in(t, names.drop_last());
        if occurs_in(t, names.last()) {
            before.push(names.last())
        } else {
            before
        }
    }
}

/// The frameworks reported for a manifest: the recognised ones it mentions,
/// then the bundler if it mentions that.
pub open spec fn detected_frameworks(t: Seq<char>) -> Seq<Seq<char>> {
    found_in(t, web_markers())
}

/// The manifest declares a library built as a dynamic library.
pub open spec fn declares_cdylib(t: Seq<char>) -> bool {
    occurs_in(t, "[lib]"@) && occurs_in(t, "cdylib"@)
}

/// The directory names that hold the static assets of a web page.
pub open spec fn static_dirs() -> Seq<Seq<char>> {
    seq!["public"@, "static"@, "assets"@, "dist"@, "www"@]
}

/// The root holds an entry page or a static asset directory.
pub open spec fn has_web_assets(p: ProjectFiles) -> bool {
    p.holds("index.html"@) || exists|i: int|
        0 <= i < static_dirs().len() && p.holds(#[trigger] static_dirs()[i])
}

/// The manifest can be read and names wasm-bindgen.
pub open spec fn uses_bindings(p: ProjectFiles) -> bool {
    match p.manifest_text() {
        Some(t) => mentions_bindings(t),
        None => false,
    }
}

/// A web application: its manifest names wasm-bindgen, and either a web
/// marker, or a dynamic library beside an entry page or asset directory.
pub open spec fn is_web_app(p: ProjectFiles) -> bool {
    match p.manifest_text() {
        Some(t) => mentions_bindings(t) && (mentions_web_marker(t) || (declares_cdylib(t)
            && has_web_assets(p))),
        None => false,
    }
}

/// The category of a project whose manifest reads `t`.
pub open spec fn category(t: Seq<char>, p: ProjectFiles) -> ProjectType {
    if detected_frameworks(t).len() > 0 || is_web_app(p) {
        ProjectType::WebApplication
    } else if mentions_bindings(t) {
        ProjectType::WasmBindgen
    } else {
        ProjectType::StandardWasm
    }
}

/// The root holds an application bundler configuration.
pub open spec fn has_bundler_config(p: ProjectFiles) -> bool {
    p.holds("Trunk.toml"@) || p.holds("trunk.toml"@)
}

/// The build strategy of a category.
pub open spec fn strategy_for(kind: ProjectType, bundler_config: bool) -> BuildStrategy {
    match kind {
        ProjectType::StandardWasm => BuildStrategy::Cargo,
        ProjectType::WasmBindgen => BuildStrategy::WasmPack,
        ProjectType::WebApplication => if bundler_config {
            BuildStrategy::Trunk
        } else {
            BuildStrategy::WasmPack
        },
    }
}

pub proof fn lemma_found_in_nonempty(t: Seq<char>, names: Seq<Seq<char>>)
    ensures
        found_in(t, names).len() > 0 <==> exists|i: int|
            0 <= i < names.len() && occurs_in(t, #[trigger] names[i]),
    decreases names.len(),
{
    if names.len() > 0 {
        let prefix = names.drop_last();
        lemma_found_in_nonempty(t, prefix);
        if exists|i: int| 0 <= i < names.len() && occurs_in(t, #[trigger] names[i]) {
            let i = choose|i: int| 0 <= i < names.len() && occurs_in(t, #[trigger] names[i]);
            if i < names.len() - 1 {
                assert(prefix[i] == names[i]);
            }
        }
        if exists|i: int| 0 <= i < prefix.len() && occurs_in(t, #[trigger] prefix[i]) {
            let i = choose|i: int| 0 <= i < prefix.len() && occurs_in(t, #[trigger] prefix[i]);
            assert(names[i] == prefix[i]);
        }
    }
}

/// The frameworks reported for a manifest are there exactly when it
/// mentions a web marker.
pub proof fn lemma_detected_iff_marker(t: Seq<char>)
    ensures
        detected_frameworks(t).len() > 0 <==> mentions_web_marker(t),
{
    lemma_found_in_nonempty(t, web_markers());
}

pub fn web_marker_list() -> (r: Vec<&'static str>)
    ensures
        r@.map_values(|s: &str| s@) == web_markers(),
{
    let r = vec![
        "yew",
        "leptos",
        "dioxus",
        "sycamore",
        "mogwai",
        "seed",
        "percy",
        "iced",
        "dodrio",
        "smithy",
        "trunk",
    ];
    assert(r@.map_values(|s: &str| s@) =~= web_markers());
    r
}

pub fn static_dir_list() -> (r: Vec<&'static str>)
    ensures
        r@.map_values(|s: &str| s@) == static_dirs(),
{
    let r = vec!["public", "static", "assets", "dist", "www"];
    assert(r@.map_values(|s: &str| s@) =~= static_dirs());
    r
}

} // verus!

verus! {

fn names_bindings(t: &str) -> (r: bool)
    ensures
        r == mentions_bindings(t@),
{
    contains_text(t, "wasm-bindgen") || contains_text(t, "web-sys") || contains_text(t, "js-sys")
}

impl WasmRustPlugin {
    /// A project can be handled when its root holds a `Cargo.toml`.
    pub fn can_handle(&self, project: &ProjectFiles) -> (r: bool)
        ensures
            r == project.holds("Cargo.toml"@),
    {
        project.has_entry("Cargo.toml")
    }

    /// The recognised frameworks that the manifest mentions, then the
    /// bundler if it is mentioned, and the project's category.
    pub fn detect_project_type_and_frameworks(
        &self,
        project: &ProjectFiles,
        manifest: &str,
    ) -> (r: (ProjectType, Vec<String>))
        ensures
            r.1@.map_values(|s: String| s@) == detected_frameworks(manifest@),
            r.0 == category(manifest@, *project),
    {
        let markers = web_marker_list();
        let mut frameworks: Vec<String> = Vec::new();
        let mut i: usize = 0;
        while i < markers.len()
            invariant
                i <= markers@.len(),
                markers@.map_values(|s: &str| s@) == web_markers(),
                frameworks@.map_values(|s: String| s@) == found_in(
                    manifest@,
                    web_markers().subrange(0, i as int),
                ),
            decreases markers@.len() - i,
        {
            let ghost names = web_markers().subrange(0, i + 1);
            assert(names.drop_last() =~= web_markers().subrange(0, i as int));
            assert(names.last() == markers@[i as int]@);
            if contains_text(manifest, markers[i]) {
                let name = markers[i].to_string();
                frameworks.push(name);
                assert(frameworks@.map_values(|s: String| s@) =~= found_in(manifest@, names));
            }
            i += 1;
        }
        assert(web_markers().subrange(0, markers@.len() as int) =~= web_markers());
        let project_type = if frameworks.len() > 0 || self.is_rust_web_application(project) {
            ProjectType::WebApplication
        } else if names_bindings(manifest) {
            ProjectType::WasmBindgen
        } else {
            ProjectType::StandardWasm
        };
        (project_type, frameworks)
    }

    /// The build strategy of a project of the given category.
    pub fn determine_build_strategy(&self, project: &ProjectFiles, project_type: &ProjectType) -> (r:
        BuildStrategy)
        ensures
            r == strategy_for(*project_type, has_bundler_config(*project)),
    {
        match project_type {
            ProjectType::StandardWasm => BuildStrategy::Cargo,
            ProjectType::WasmBindgen => BuildStrategy::WasmPack,
            ProjectType::WebApplication => {
                if project.has_entry("Trunk.toml") || project.has_entry("trunk.toml") {
                    BuildStrategy::Trunk
                } else {
                    BuildStrategy::WasmPack
                }
            },
        }
    }

    /// The manifest can be read and names wasm-bindgen.
    pub fn uses_wasm_bindgen(&self, project: &ProjectFiles) -> (r: bool)
        ensures
            r == uses_bindings(*project),
    {
        match &project.manifest {
            Some(t) => names_bindings(t.as_str()),
            None => false,
        }
    }

    /// The project is a web application (see `is_web_app`).
    pub fn is_rust_web_application(&self, project: &ProjectFiles) -> (r: bool)
        ensures
            r == is_web_app(*project),
    {
        let t = match &project.manifest {
            Some(t) => t.as_str(),
            None => {
                return false;
            },
        };
        if !names_bindings(t) {
            return false;
        }
        let markers = web_marker_list();
        let mut i: usize = 0;
        while i < markers.len()
            invariant
                i <= markers@.len(),
                markers@.map_values(|s: &str| s@) == web_markers(),
                mentions_bindings(t@),
                project.manifest_text() == Some(t@),
                forall|j: int| 0 <= j < i ==> !occurs_in(t@, #[trigger] web_markers()[j]),
            decreases markers@.len() - i,
        {
            assert(markers@[i as int]@ == web_markers()[i as int]);
            if contains_text(t, markers[i]) {
                assert(occurs_in(t@, web_markers()[i as int]));
                return true;
            }
            i += 1;
        }
        if contains_text(t, "[lib]") && contains_text(t, "cdylib") {
            if project.has_entry("index.html") {
                return true;
            }
            let dirs = static_dir_list();
            let mut k: usize = 0;
            while k < dirs.len()
                invariant
                    k <= dirs@.len(),
                    dirs@.map_values(|s: &str| s@) == static_dirs(),
                    mentions_bindings(t@),
                    declares_cdylib(t@),
                    project.manifest_text() == Some(t@),
                    forall|j: int| 0 <= j < k ==> !project.holds(#[trigger] static_dirs()[j]),
                decreases dirs@.len() - k,
            {
                assert(dirs@[k as int]@ == static_dirs()[k as int]);
                if project.has_entry(dirs[k]) {
                    assert(project.holds(static_dirs()[k as int]));
                    return true;
                }
                k += 1;
            }
        }
        false
    }

    /// Whether the project is a web application.
    pub fn supports_web_app(&self, project: &ProjectFiles) -> (r: bool)
        ensures
            r == is_web_app(*project),
    {
        self.is_rust_web_application(project)
    }
}

} // verus!

verus! {

/// A manifest that names neither wasm-bindgen nor any web marker makes a
/// standard module, built by cargo, whatever else stands at the root.
pub proof fn law_plain_manifest_is_standard(t: Seq<char>, p: ProjectFiles)
    requires
        p.manifest_text() == Some(t),
        !mentions_bindings(t),
        !mentions_web_marker(t),
    ensures
        category(t, p) == ProjectType::StandardWasm,
        strategy_for(category(t, p), has_bundler_config(p)) == BuildStrategy::Cargo,
{
    lemma_detected_iff_marker(t);
}

/// A manifest that mentions a web marker makes a web application, whatever
/// stands at the root.
pub proof fn law_marker_makes_web_application(t: Seq<char>, p: ProjectFiles)
    requires
        mentions_web_marker(t),
    ensures
        category(t, p) == ProjectType::WebApplication,
{
    lemma_detected_iff_marker(t);
}

/// A manifest that names wasm-bindgen, mentions no web marker, and is not
/// a dynamic library beside web assets, makes a bindings module built by
/// wasm-pack.
pub proof fn law_bindings_without_web_is_module(t: Seq<char>, p: ProjectFiles)
    requires
        p.manifest_text() == Some(t),
        mentions_bindings(t),
        !mentions_web_marker(t),
        !(declares_cdylib(t) && has_web_assets(p)),
    ensures
        category(t, p) == ProjectType::WasmBindgen,
        strategy_for(category(t, p), has_bundler_config(p)) == BuildStrategy::WasmPack,
{
    lemma_detected_iff_marker(t);
}

/// A web application is built by trunk exactly when the root holds a
/// bundler configuration, and by wasm-pack otherwise.
pub proof fn law_web_strategy(p: ProjectFiles)
    ensures
        strategy_for(ProjectType::WebApplication, has_bundler_config(p)) == BuildStrategy::Trunk
            <==> has_bundler_config(p),
        !has_bundler_config(p) ==> strategy_for(ProjectType::WebApplication, has_bundler_config(p))
            == BuildStrategy::WasmPack,
{
}

} // verus!
