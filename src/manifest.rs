use vstd::prelude::*;

use crate::plugin::WasmRustPlugin;
use crate::text::{concat, opt_text, replace_char, swap_char};
use crate::types::{ErrorModel, WasmRustError, WasmRustResult};

verus! {

/// Whether the TOML parser accepts a text as a document.
pub uninterp spec fn toml_accepts(text: Seq<char>) -> bool;

/// The string stored under `key` in the table `table` of a TOML document,
/// if the text parses and holds one there.
pub uninterp spec fn toml_string_at(text: Seq<char>, table: Seq<char>, key: Seq<char>) -> Option<
    Seq<char>,
>;

/// Relies on `FromStr` for `toml::Table` (that is, `toml::from_str`) and on
/// the `Display` impl of `toml::de::Error`: the parser's message where it
/// refuses the text, nothing where it accepts it. Which texts it accepts
/// depends on the text alone.
#[verifier::external_body]
fn parse_error(text: &str) -> (r: Option<String>)
    ensures
        r is None <==> toml_accepts(text@),
{
    text.parse::<toml::Table>().err().map(|e| e.to_string())
}

/// Relies on `FromStr` for `toml::Table`, `toml::map::Map::get`,
/// `toml::Value::get` and `toml::Value::as_str`: the string under `key` in
/// the table `table` of the document, where the text parses and holds a
/// string there. It depends on the three texts alone.
#[verifier::external_body]
fn table_string(text: &str, table: &str, key: &str) -> (r: Option<String>)
    ensures
        opt_text(r) == toml_string_at(text@, table@, key@),
        r is Some ==> toml_accepts(text@),
{
    let document = text.parse::<toml::Table>().ok()?;
    let value = document.get(table)?.get(key)?;
    value.as_str().map(|s| s.to_string())
}

/// The string field `key` of the manifest's `[package]` table.
pub open spec fn package_field(text: Seq<char>, key: Seq<char>) -> Option<Seq<char>> {
    toml_string_at(text, "package"@, key)
}

/// The manifest declares a package name and version, both as strings.
pub open spec fn declares_package(text: Seq<char>) -> bool {
    package_field(text, "name"@) is Some && package_field(text, "version"@) is Some
}

/// The package name a manifest declares.
pub open spec fn package_name_of(text: Seq<char>) -> Seq<char> {
    package_field(text, "name"@)->Some_0
}

/// The package version a manifest declares.
pub open spec fn package_version_of(text: Seq<char>) -> Seq<char> {
    package_field(text, "version"@)->Some_0
}

/// The message given when a field of `[package]` is absent or is not a string.
pub open spec fn missing_field_message(field: Seq<char>) -> Seq<char> {
    "`package."@ + field + "` is missing or is not a string"@
}

fn missing_field(field: &str) -> (r: WasmRustError)
    ensures
        r@ == ErrorModel::TomlParse(missing_field_message(field@)),
{
    let mut m = concat("`package.", field);
    m.append("` is missing or is not a string");
    WasmRustError::TomlParse(m)
}

/// The package's name and version, from the string fields found under
/// `[package]`: both must be there.
pub fn package_identity(name: Option<String>, version: Option<String>) -> (r: WasmRustResult<
    (String, String),
>)
    ensures
        r is Ok <==> name is Some && version is Some,
        r is Ok ==> r->Ok_0.0 == name->Some_0 && r->Ok_0.1 == version->Some_0,
        name is None ==> r is Err && r->Err_0@ == ErrorModel::TomlParse(
            missing_field_message("name"@),
        ),
        name is Some && version is None ==> r is Err && r->Err_0@ == ErrorModel::TomlParse(
            missing_field_message("version"@),
        ),
{
    match (name, version) {
        (Some(n), Some(v)) => Ok((n, v)),
        (None, _) => Err(missing_field("name")),
        (Some(_), None) => Err(missing_field("version")),
    }
}

/// The name and version that a manifest declares under `[package]`. A text
/// the parser refuses gives `TomlParse` with the parser's message; a
/// missing or non-string field gives `TomlParse` naming the field.
pub fn read_package(manifest: &str) -> (r: WasmRustResult<(String, String)>)
    ensures
        r is Ok <==> declares_package(manifest@),
        r is Ok ==> r->Ok_0.0@ == package_name_of(manifest@) && r->Ok_0.1@ == package_version_of(
            manifest@,
        ),
        r is Err ==> r->Err_0 is TomlParse,
        toml_accepts(manifest@) && package_field(manifest@, "name"@) is None ==> r is Err
            && r->Err_0@ == ErrorModel::TomlParse(missing_field_message("name"@)),
        toml_accepts(manifest@) && package_field(manifest@, "name"@) is Some && package_field(
            manifest@,
            "version"@,
        ) is None ==> r is Err && r->Err_0@ == ErrorModel::TomlParse(
            missing_field_message("version"@),
        ),
{
    let name = table_string(manifest, "package", "name");
    let version = table_string(manifest, "package", "version");
    if let Some(message) = parse_error(manifest) {
        return Err(WasmRustError::TomlParse(message));
    }
    package_identity(name, version)
}

/// A package name as it appears in the names of build outputs.
pub open spec fn artifact_stem(name: Seq<char>) -> Seq<char> {
    swap_char(name, '-', '_')
}

impl WasmRustPlugin {
    /// The package's name as it appears in the names of build outputs:
    /// each `-` turned into `_`.
    pub fn get_package_name(&self, manifest: &str) -> (r: WasmRustResult<String>)
        ensures
            r is Ok <==> declares_package(manifest@),
            r is Ok ==> r->Ok_0@ == artifact_stem(package_name_of(manifest@)),
            r is Err ==> r->Err_0 is TomlParse,
            toml_accepts(manifest@) && package_field(manifest@, "name"@) is None ==> r is Err
                && r->Err_0@ == ErrorModel::TomlParse(missing_field_message("name"@)),
            toml_accepts(manifest@) && package_field(manifest@, "name"@) is Some && package_field(
                manifest@,
                "version"@,
            ) is None ==> r is Err && r->Err_0@ == ErrorModel::TomlParse(
                missing_field_message("version"@),
            ),
    {
        let (name, _version) = read_package(manifest)?;
        Ok(replace_char(name.as_str(), '-', '_'))
    }
}

} // verus!
