use vstd::prelude::*;

use crate::plugin::WasmRustPlugin;
use crate::text::concat;
use crate::types::{
    BuildStrategy, DependencyCheck, DependencyStatus, ProjectType, WasmRustError, WasmRustResult,
};

verus! {

/// Which external tools the host found, probed once per audit.
#[derive(Debug, Clone, Copy, PartialEq, Eq, Structural)]
pub struct Toolchain {
    pub cargo: bool,
    pub rustc: bool,
    pub wasm_target: bool,
    pub wasm_pack: bool,
    pub trunk: bool,
    pub rustup: bool,
    pub wasm_opt: bool,
}

/// A check as name, availability and reason.
pub type CheckView = (Seq<char>, bool, Seq<char>);

pub open spec fn check_view(c: DependencyCheck) -> CheckView {
    (c.name@, c.available, c.reason@)
}

pub open spec fn checks_view(v: Seq<DependencyCheck>) -> Seq<CheckView> {
    v.map_values(|c: DependencyCheck| check_view(c))
}

/// The tools every build needs.
pub open spec fn base_checks(t: Toolchain) -> Seq<CheckView> {
    seq![
        ("cargo"@, t.cargo, "Rust build tool"@),
        ("rustc"@, t.rustc, "Rust compiler"@),
        ("wasm32-unknown-unknown"@, t.wasm_target, "WebAssembly compilation target"@),
    ]
}

/// The tools a strategy needs.
pub open spec fn required_checks(s: BuildStrategy, t: Toolchain) -> Seq<CheckView> {
    match s {
        BuildStrategy::WasmPack => base_checks(t).push(
            ("wasm-pack"@, t.wasm_pack, "Required for wasm-bindgen projects"@),
        ),
        BuildStrategy::Trunk => base_checks(t).push(
            ("trunk"@, t.trunk, "Required for web application builds"@),
        ),
        BuildStrategy::Cargo => base_checks(t),
    }
}

/// The tools a strategy can make use of.
pub open spec fn optional_checks(s: BuildStrategy, t: Toolchain) -> Seq<CheckView> {
    let general = seq![
        ("rustup"@, t.rustup, "Rust toolchain manager"@),
        ("wasm-opt"@, t.wasm_opt, "WebAssembly optimizer"@),
    ];
    match s {
        BuildStrategy::WasmPack => general,
        BuildStrategy::Trunk => seq![("wasm-pack"@, t.wasm_pack, "Useful for optimized builds"@)]
            + general,
        BuildStrategy::Cargo => seq![
            ("wasm-pack"@, t.wasm_pack, "Useful for advanced WASM features"@),
        ] + general,
    }
}

/// What is reported missing of the tools every build needs.
pub open spec fn missing_tools(t: Toolchain) -> Seq<Seq<char>> {
    let a: Seq<Seq<char>> = if t.cargo {
        seq![]
    } else {
        seq!["cargo (Rust toolchain)"@]
    };
    let b = if t.rustc {
        a
    } else {
        a.push("rustc (Rust compiler)"@)
    };
    if t.wasm_target {
        b
    } else {
        b.push("wasm32-unknown-unknown target"@)
    }
}

/// The items of `v` written one after another with `sep` between them.
pub open spec fn separated(v: Seq<Seq<char>>, sep: Seq<char>) -> Seq<char>
    decreases v.len(),
{
    if v.len() == 0 {
        seq![]
    } else if v.len() == 1 {
        v[0]
    } else {
        separated(v.drop_last(), sep) + sep + v.last()
    }
}

fn check(name: &str, available: bool, reason: &str) -> (r: DependencyCheck)
    ensures
        check_view(r) == (name@, available, reason@),
{
    DependencyCheck { name: name.to_string(), available, reason: reason.to_string() }
}

fn join_list(v: &Vec<String>, sep: &str) -> (r: String)
    ensures
        r@ == separated(v@.map_values(|s: String| s@), sep@),
{
    let ghost items = v@.map_values(|s: String| s@);
    let mut r = String::new();
    let mut i: usize = 0;
    while i < v.len()
        invariant
            i <= v@.len(),
            items == v@.map_values(|s: String| s@),
            r@ == separated(items.subrange(0, i as int), sep@),
        decreases v@.len() - i,
    {
        let ghost next = items.subrange(0, i + 1);
        assert(next.drop_last() =~= items.subrange(0, i as int));
        if i > 0 {
            r.append(sep);
        } else {
            assert(r@ =~= seq![]);
        }
        r.append(v[i].as_str());
        proof {
            if i == 0 {
                assert(r@ =~= next[0]);
            }
        }
        i += 1;
    }
    assert(items.subrange(0, v@.len() as int) =~= items);
    r
}

impl WasmRustPlugin {
    /// The required and optional tools of a build strategy, each with its
    /// availability as the toolchain report gives it.
    pub fn check_dependencies_comprehensive(
        &self,
        _project_type: &ProjectType,
        build_strategy: &BuildStrategy,
        tools: &Toolchain,
    ) -> (r: DependencyStatus)
        ensures
            checks_view(r.required@) == required_checks(*build_strategy, *tools),
            checks_view(r.optional@) == optional_checks(*build_strategy, *tools),
    {
        let mut required: Vec<DependencyCheck> = Vec::new();
        let mut optional: Vec<DependencyCheck> = Vec::new();
        required.push(check("cargo", tools.cargo, "Rust build tool"));
        required.push(check("rustc", tools.rustc, "Rust compiler"));
        required.push(
            check("wasm32-unknown-unknown", tools.wasm_target, "WebAssembly compilation target"),
        );
        match build_strategy {
            BuildStrategy::WasmPack => {
                required.push(
                    check("wasm-pack", tools.wasm_pack, "Required for wasm-bindgen projects"),
                );
            },
            BuildStrategy::Trunk => {
                required.push(check("trunk", tools.trunk, "Required for web application builds"));
                optional.push(check("wasm-pack", tools.wasm_pack, "Useful for optimized builds"));
            },
            BuildStrategy::Cargo => {
                optional.push(
                    check("wasm-pack", tools.wasm_pack, "Useful for advanced WASM features"),
                );
            },
        }
        optional.push(check("rustup", tools.rustup, "Rust toolchain manager"));
        optional.push(check("wasm-opt", tools.wasm_opt, "WebAssembly optimizer"));
        assert(checks_view(required@) =~= required_checks(*build_strategy, *tools));
        assert(checks_view(optional@) =~= optional_checks(*build_strategy, *tools));
        DependencyStatus { required, optional }
    }

    /// The tools every build needs that the toolchain report lacks.
    pub fn check_dependencies(&self, tools: &Toolchain) -> (r: Vec<String>)
        ensures
            r@.map_values(|s: String| s@) == missing_tools(*tools),
    {
        let mut missing: Vec<String> = Vec::new();
        if !tools.cargo {
            missing.push("cargo (Rust toolchain)".to_string());
        }
        if !tools.rustc {
            missing.push("rustc (Rust compiler)".to_string());
        }
        if !tools.wasm_target {
            missing.push("wasm32-unknown-unknown target".to_string());
        }
        assert(missing@.map_values(|s: String| s@) =~= missing_tools(*tools));
        missing
    }

    /// Succeeds when nothing that every build needs is missing; otherwise
    /// names what is missing.
    pub fn verify_dependencies(&self, tools: &Toolchain) -> (r: WasmRustResult<()>)
        ensures
            r is Ok <==> missing_tools(*tools).len() == 0,
            r is Err ==> r->Err_0 is ToolNotFound && r->Err_0->ToolNotFound_0@
                == "Missing dependencies: "@ + separated(missing_tools(*tools), ", "@),
    {
        let missing = self.check_dependencies(tools);
        if missing.len() > 0 {
            let list = join_list(&missing, ", ");
            return Err(WasmRustError::ToolNotFound(concat("Missing dependencies: ", list.as_str())));
        }
        Ok(())
    }
}

} // verus!

verus! {

/// `name` is the name of one of the checks.
pub open spec fn names_tool(v: Seq<CheckView>, name: Seq<char>) -> bool {
    exists|i: int| 0 <= i < v.len() && (#[trigger] v[i]).0 == name
}

/// Trunk builds require trunk and can use wasm-pack; wasm-pack builds
/// require wasm-pack; cargo builds require neither.
pub proof fn law_audit_by_strategy(t: Toolchain)
    ensures
        names_tool(required_checks(BuildStrategy::Trunk, t), "trunk"@),
        names_tool(optional_checks(BuildStrategy::Trunk, t), "wasm-pack"@),
        names_tool(required_checks(BuildStrategy::WasmPack, t), "wasm-pack"@),
        !names_tool(required_checks(BuildStrategy::Cargo, t), "trunk"@),
        !names_tool(required_checks(BuildStrategy::Cargo, t), "wasm-pack"@),
{
    let trunk = required_checks(BuildStrategy::Trunk, t);
    assert(trunk[3].0 == "trunk"@);
    let trunk_opt = optional_checks(BuildStrategy::Trunk, t);
    assert(trunk_opt[0].0 == "wasm-pack"@);
    let pack = required_checks(BuildStrategy::WasmPack, t);
    assert(pack[3].0 == "wasm-pack"@);
    let cargo = required_checks(BuildStrategy::Cargo, t);
    reveal_strlit("cargo");
    reveal_strlit("rustc");
    reveal_strlit("wasm32-unknown-unknown");
    reveal_strlit("trunk");
    reveal_strlit("wasm-pack");
    assert(cargo[0].0[0] != "trunk"@[0]);
    assert(cargo[1].0[0] != "trunk"@[0]);
    assert(cargo[2].0 != "trunk"@);
    assert(cargo[0].0 != "wasm-pack"@);
    assert(cargo[1].0 != "wasm-pack"@);
    assert(cargo[2].0 != "wasm-pack"@);
}

} // verus!
