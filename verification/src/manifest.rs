//! Reading `Cargo.toml` manifests and deriving the `package.json` of the
//! npm package from them.

use vstd::prelude::*;
use crate::error::Error;
use crate::style::{bold_dim, ansi_bold_dim};
use crate::text::{to_chars, from_chars, push_str, replace_char, replace_char_seq, chars_eq,
    str_eq, views};

verus! {

/// The `[package]` table of a `Cargo.toml`.
#[derive(Debug)]
pub struct CargoPackage {
    /// The crate's name.
    pub name: String,
    /// Its authors.
    pub authors: Vec<String>,
    /// Its description, if any.
    pub description: Option<String>,
    /// Its version.
    pub version: String,
    /// Its license expression, if any.
    pub license: Option<String>,
    /// Its repository URL, if any.
    pub repository: Option<String>,
}

/// How a dependency is specified.
#[derive(Debug)]
pub enum CargoDependency {
    /// `name = "version"`.
    Simple(String),
    /// `name = { ... }`.
    Detailed(DetailedCargoDependency),
}

/// A dependency given as a table.
#[derive(Debug)]
pub struct DetailedCargoDependency {
    /// Its `version` key, if any.
    pub version: Option<String>,
}

/// The `[lib]` table of a `Cargo.toml`.
#[derive(Debug)]
pub struct CargoLib {
    /// Its `crate-type` key, if any.
    pub crate_type: Option<Vec<String>>,
}

/// The parts of a `Cargo.toml` that are read. A dependency table is held as
/// its entries; when a name occurs more than once, the last entry counts.
#[derive(Debug)]
pub struct CargoManifest {
    /// The `[package]` table.
    pub package: CargoPackage,
    /// The `[dependencies]` table, if any.
    pub dependencies: Option<Vec<(String, CargoDependency)>>,
    /// The `[dev-dependencies]` table, if any.
    pub dev_dependencies: Option<Vec<(String, CargoDependency)>>,
    /// The `[lib]` table, if any.
    pub lib: Option<CargoLib>,
}

/// The `repository` field of a `package.json`.
#[derive(Debug)]
pub struct Repository {
    /// The kind of repository.
    pub ty: String,
    /// Its URL.
    pub url: String,
}

/// The contents of a `package.json`.
#[derive(Debug)]
pub struct NpmPackage {
    /// The package name.
    pub name: String,
    /// Its collaborators (left out when empty).
    pub collaborators: Vec<String>,
    /// Its description (left out when absent).
    pub description: Option<String>,
    /// Its version.
    pub version: String,
    /// Its license (left out when absent).
    pub license: Option<String>,
    /// Its repository (left out when absent).
    pub repository: Option<Repository>,
    /// The files it ships (left out when empty).
    pub files: Vec<String>,
    /// Its entry point.
    pub main: String,
    /// Its TypeScript declarations (left out when absent).
    pub types: Option<String>,
}

/// What a dependency's version is, as the manifest gives it.
pub enum DepVersion {
    /// A version is given.
    Given(Seq<char>),
    /// The dependency is a table without a `version` key.
    Missing,
}

/// The version a dependency entry gives.
pub open spec fn dep_version_of(d: CargoDependency) -> DepVersion {
    match d {
        CargoDependency::Simple(v) => DepVersion::Given(v@),
        CargoDependency::Detailed(t) => match t.version {
            Some(v) => DepVersion::Given(v@),
            None => DepVersion::Missing,
        },
    }
}

/// The last entry of `es` named `name`, by what it gives as version.
pub open spec fn dep_lookup(es: Seq<(String, CargoDependency)>, name: Seq<char>) -> Option<DepVersion>
    decreases es.len(),
{
    if es.len() == 0 {
        None
    } else if es.last().0@ == name {
        Some(dep_version_of(es.last().1))
    } else {
        dep_lookup(es.drop_last(), name)
    }
}

/// A dependency name with `-` written as `_`.
pub open spec fn normalize_name(dep: Seq<char>) -> Seq<char> {
    replace_char_seq(dep, '-', '_')
}

/// Normalizing an already normalized dependency name changes nothing.
pub proof fn lemma_normalize_name_idempotent(dep: Seq<char>)
    ensures
        normalize_name(normalize_name(dep)) == normalize_name(dep),
{
    assert(normalize_name(normalize_name(dep)) =~= normalize_name(dep));
}

/// A dependency name spelled with `-` and the same name spelled with `_`
/// normalize alike (`wasm-bindgen` and `wasm_bindgen` are one dependency).
pub proof fn lemma_normalize_name_ignores_spelling(dep: Seq<char>)
    ensures
        normalize_name(replace_char_seq(dep, '_', '-')) == normalize_name(dep),
{
    assert(normalize_name(replace_char_seq(dep, '_', '-')) =~= normalize_name(dep));
}

/// The names in a dependency table, normalized, and what each gives.
pub open spec fn normalized_lookup(es: Seq<(String, CargoDependency)>, name: Seq<char>) -> Option<DepVersion>
    decreases es.len(),
{
    if es.len() == 0 {
        None
    } else if normalize_name(es.last().0@) == name {
        Some(dep_version_of(es.last().1))
    } else {
        normalized_lookup(es.drop_last(), name)
    }
}

/// Normalizes a dependency name: `-` becomes `_`.
pub fn normalize_dependency_name(dep: &str) -> (r: String)
    ensures
        r@ == normalize_name(dep@),
{
    replace_char(dep, '-', '_')
}

/// The dependency table with every name normalized. Looking a name up in
/// the result finds the last entry whose normalized name it is.
pub fn normalize_dependencies(deps: Vec<(String, CargoDependency)>) -> (r: Vec<(String, CargoDependency)>)
    ensures
        forall|name: Seq<char>| #[trigger] dep_lookup(r@, name) == normalized_lookup(deps@, name),
        r@.len() == deps@.len(),
{
    let mut out: Vec<(String, CargoDependency)> = Vec::new();
    let mut i: usize = 0;
    while i < deps.len()
        invariant
            i <= deps.len(),
            out@.len() == i,
            forall|name: Seq<char>| #[trigger] dep_lookup(out@, name) == normalized_lookup(deps@.take(i as int), name),
        decreases deps.len() - i,
    {
        let nk = normalize_dependency_name(deps[i].0.as_str());
        let v = clone_dependency(&deps[i].1);
        let ghost before = out@;
        out.push((nk, v));
        proof {
            assert(deps@.take(i + 1).drop_last() =~= deps@.take(i as int));
            assert(deps@.take(i + 1).last() == deps@[i as int]);
            assert(out@.drop_last() =~= before);
            assert forall|name: Seq<char>| #[trigger] dep_lookup(out@, name) == normalized_lookup(deps@.take(i + 1), name) by {
                assert(dep_lookup(before, name) == normalized_lookup(deps@.take(i as int), name));
            }
        }
        i = i + 1;
    }
    assert(deps@.take(i as int) =~= deps@);
    out
}

/// A copy of a dependency entry.
pub fn clone_dependency(d: &CargoDependency) -> (r: CargoDependency)
    ensures
        r == *d,
{
    match d {
        CargoDependency::Simple(v) => CargoDependency::Simple(v.clone()),
        CargoDependency::Detailed(t) => CargoDependency::Detailed(DetailedCargoDependency {
            version: match &t.version {
                Some(v) => Some(v.clone()),
                None => None,
            },
        }),
    }
}

impl CargoManifest {
    /// Normalizes the names of both dependency tables.
    pub fn normalize_dependencies(&mut self)
        ensures
            match old(self).dependencies {
                Some(d) => final(self).dependencies matches Some(e)
                    && forall|name: Seq<char>| #[trigger] dep_lookup(e@, name) == normalized_lookup(d@, name),
                None => final(self).dependencies is None,
            },
            match old(self).dev_dependencies {
                Some(d) => final(self).dev_dependencies matches Some(e)
                    && forall|name: Seq<char>| #[trigger] dep_lookup(e@, name) == normalized_lookup(d@, name),
                None => final(self).dev_dependencies is None,
            },
            final(self).package == old(self).package,
            final(self).lib == old(self).lib,
    {
        if let Some(deps) = self.dependencies.take() {
            self.dependencies = Some(normalize_dependencies(deps));
        }
        if let Some(dev_deps) = self.dev_dependencies.take() {
            self.dev_dependencies = Some(normalize_dependencies(dev_deps));
        }
    }
}

/// The name of the files `wasm-bindgen` generates for the crate `name`.
pub open spec fn file_base_of(name: Seq<char>) -> Seq<char> {
    replace_char_seq(name, '-', '_')
}

/// The `package.json` name: the crate name, under `@$SCOPE/` when scoped.
pub open spec fn npm_name_of(name: Seq<char>, scope: Option<Seq<char>>) -> Seq<char> {
    match scope {
        Some(s) => "@"@ + s + "/"@ + name,
        None => name,
    }
}

/// The files a package ships: the wasm file, then the TypeScript
/// declarations unless disabled, then the JavaScript glue of the wasm for
/// Node.js.
pub open spec fn npm_files_of(name: Seq<char>, disable_dts: bool, target: Seq<char>) -> Seq<Seq<char>> {
    let f = file_base_of(name);
    seq![f + "_bg.wasm"@]
        + (if disable_dts { Seq::<Seq<char>>::empty() } else { seq![f + ".d.ts"@] })
        + (if target == "nodejs"@ { seq![f + "_bg.js"@] } else { Seq::<Seq<char>>::empty() })
}

/// A package ships its TypeScript declarations (the file `types` names)
/// exactly when they are not disabled, whatever the target; it always ships
/// the wasm file, and the JavaScript glue of the wasm exactly for Node.js.
pub proof fn lemma_package_files(name: Seq<char>, disable_dts: bool, target: Seq<char>)
    ensures
        npm_files_of(name, disable_dts, target).contains(file_base_of(name) + ".d.ts"@) <==> !disable_dts,
        npm_files_of(name, disable_dts, target).contains(file_base_of(name) + "_bg.wasm"@),
        npm_files_of(name, disable_dts, target).contains(file_base_of(name) + "_bg.js"@) <==> target == "nodejs"@,
{
    reveal_strlit(".d.ts");
    reveal_strlit("_bg.wasm");
    reveal_strlit("_bg.js");
    let f = file_base_of(name);
    let dts = f + ".d.ts"@;
    let wasm = f + "_bg.wasm"@;
    let js = f + "_bg.js"@;
    assert(dts.len() == f.len() + 5 && wasm.len() == f.len() + 8 && js.len() == f.len() + 6);
    let files = npm_files_of(name, disable_dts, target);
    let node = target == "nodejs"@;
    if disable_dts {
        if node {
            assert(files =~= seq![wasm, js]);
        } else {
            assert(files =~= seq![wasm]);
        }
    } else {
        if node {
            assert(files =~= seq![wasm, dts, js]);
        } else {
            assert(files =~= seq![wasm, dts]);
        }
    }
    assert(files[0] == wasm);
    if !disable_dts {
        assert(files[1] == dts);
    }
    if node {
        assert(files[files.len() - 1] == js);
    }
}

/// The view of an optional string.
pub open spec fn opt_view(o: Option<String>) -> Option<Seq<char>> {
    match o {
        Some(s) => Some(s@),
        None => None,
    }
}

/// A copy of an optional string.
fn clone_opt(o: &Option<String>) -> (r: Option<String>)
    ensures
        r == *o,
{
    match o {
        Some(s) => Some(s.clone()),
        None => None,
    }
}

/// `base` followed by `suffix`.
fn with_suffix(base: &str, suffix: &str) -> (r: String)
    ensures
        r@ == base@ + suffix@,
{
    let mut v = to_chars(base);
    push_str(&mut v, suffix);
    from_chars(&v)
}

impl CargoManifest {
    /// The `package.json` describing this crate's npm package.
    pub fn into_npm(self, scope: &Option<String>, disable_dts: bool, target: &str) -> (r: NpmPackage)
        ensures
            r.name@ == npm_name_of(self.package.name@, opt_view(*scope)),
            r.collaborators == self.package.authors,
            r.description == self.package.description,
            r.version == self.package.version,
            r.license == self.package.license,
            match self.package.repository {
                Some(u) => r.repository matches Some(repo) && repo.ty@ == "git"@ && repo.url == u,
                None => r.repository is None,
            },
            views(r.files@) == npm_files_of(self.package.name@, disable_dts, target@),
            r.main@ == file_base_of(self.package.name@) + ".js"@,
            disable_dts ==> r.types is None,
            !disable_dts ==> (r.types matches Some(t) && t@ == file_base_of(self.package.name@) + ".d.ts"@),
    {
        let filename = replace_char(self.package.name.as_str(), '-', '_');
        let wasm_file = with_suffix(filename.as_str(), "_bg.wasm");
        let js_file = with_suffix(filename.as_str(), ".js");
        let dts_file = if disable_dts {
            None
        } else {
            Some(with_suffix(filename.as_str(), ".d.ts"))
        };
        proof {
            reveal_strlit("nodejs");
        }
        let js_bg_file = if str_eq(target, "nodejs") {
            Some(with_suffix(filename.as_str(), "_bg.js"))
        } else {
            None
        };
        let name = match scope {
            Some(s) => {
                let mut v: Vec<char> = Vec::new();
                v.push('@');
                push_str(&mut v, s.as_str());
                v.push('/');
                push_str(&mut v, self.package.name.as_str());
                proof {
                    reveal_strlit("@");
                    reveal_strlit("/");
                    assert(v@ =~= npm_name_of(self.package.name@, opt_view(*scope)));
                }
                from_chars(&v)
            },
            None => self.package.name,
        };
        let mut files: Vec<String> = Vec::new();
        files.push(wasm_file);
        match &dts_file {
            Some(d) => files.push(d.clone()),
            None => {},
        }
        match js_bg_file {
            Some(j) => files.push(j),
            None => {},
        }
        assert(views(files@) =~= npm_files_of(self.package.name@, disable_dts, target@));
        let repository = match self.package.repository {
            Some(url) => Some(Repository { ty: String::from_str("git"), url }),
            None => None,
        };
        NpmPackage {
            name,
            collaborators: self.package.authors,
            description: self.package.description,
            version: self.package.version,
            license: self.package.license,
            repository,
            files,
            main: js_file,
            types: dts_file,
        }
    }
}

/// The message when a manifest has no dependency table.
pub open spec fn no_dependencies_message() -> Seq<char> {
    "Could not find crate dependencies"@
}

/// The message when a table dependency has no version; `shown` is how its
/// name is shown.
pub open spec fn missing_version_message(shown: Seq<char>) -> Seq<char> {
    "\""@ + shown + "\" dependency is missing its version number"@
}

/// The name as messages show it: plain, or styled bold and dim.
pub open spec fn shown_as(shown: Seq<char>, name: Seq<char>) -> bool {
    shown == name || shown == ansi_bold_dim(name)
}

/// What looking `dependency` up in a dependency table yields: its version,
/// or the configuration error to report.
pub open spec fn dependency_version_ok(
    dependencies: Option<Seq<(String, CargoDependency)>>,
    dependency: Seq<char>,
    r: Result<String, Error>,
    section: Seq<char>,
    suggestion: Seq<char>,
) -> bool {
    match dependencies {
        None => r matches Err(e) && e matches Error::CrateConfig { message } && message@ == no_dependencies_message(),
        Some(es) => {
            let name = normalize_name(dependency);
            match dep_lookup(es, name) {
                Some(DepVersion::Given(v)) => r matches Ok(x) && x@ == v,
                Some(DepVersion::Missing) => r matches Err(e) && e matches Error::CrateConfig { message }
                    && exists|shown: Seq<char>| shown_as(shown, name) && message@ == missing_version_message(shown),
                None => r matches Err(e) && e matches Error::CrateConfig { message }
                    && exists|shown: Seq<char>| shown_as(shown, name) && message@
                        == crate::lockfile::missing_dependency_message(shown, section, name, suggestion),
            }
        },
    }
}

/// The version of `dependency` (by its normalized name) in a normalized
/// dependency table.
pub fn get_dependency_version(
    dependencies: Option<&Vec<(String, CargoDependency)>>,
    dependency: &str,
    dependencies_section_name: &str,
    version_suggestion: &str,
) -> (r: Result<String, Error>)
    ensures
        dependency_version_ok(
            match dependencies { Some(d) => Some(d@), None => None },
            dependency@,
            r,
            dependencies_section_name@,
            version_suggestion@,
        ),
{
    match dependencies {
        None => Err(Error::CrateConfig { message: String::from_str("Could not find crate dependencies") }),
        Some(deps) => {
            let dependency = normalize_dependency_name(dependency);
            match lookup_dependency(deps, dependency.as_str()) {
                Some(CargoDependency::Simple(version)) => Ok(version.clone()),
                Some(CargoDependency::Detailed(DetailedCargoDependency { version: Some(version) })) => Ok(version.clone()),
                Some(CargoDependency::Detailed(DetailedCargoDependency { version: None })) => {
                    let shown = bold_dim(dependency.as_str());
                    let mut v: Vec<char> = Vec::new();
                    v.push('"');
                    push_str(&mut v, shown.as_str());
                    push_str(&mut v, "\" dependency is missing its version number");
                    proof {
                        reveal_strlit("\"");
                        assert(v@ =~= missing_version_message(shown@));
                    }
                    Err(Error::CrateConfig { message: from_chars(&v) })
                },
                None => {
                    let shown = bold_dim(dependency.as_str());
                    let message = crate::lockfile::missing_dependency(
                        shown.as_str(),
                        dependencies_section_name,
                        dependency.as_str(),
                        version_suggestion,
                    );
                    assert(shown_as(shown@, dependency@));
                    assert(message@ == crate::lockfile::missing_dependency_message(
                        shown@, dependencies_section_name@, dependency@, version_suggestion@));
                    Err(Error::CrateConfig { message })
                },
            }
        },
    }
}

/// The last entry of the table named `name`.
fn lookup_dependency<'a>(deps: &'a Vec<(String, CargoDependency)>, name: &str) -> (r: Option<&'a CargoDependency>)
    ensures
        match r {
            Some(d) => dep_lookup(deps@, name@) == Some(dep_version_of(*d)),
            None => dep_lookup(deps@, name@) is None,
        },
{
    let target = to_chars(name);
    let mut i = deps.len();
    assert(deps@.take(i as int) =~= deps@);
    while i > 0
        invariant
            i <= deps.len(),
            target@ == name@,
            dep_lookup(deps@, name@) == dep_lookup(deps@.take(i as int), name@),
        decreases i,
    {
        assert(deps@.take(i as int).drop_last() =~= deps@.take(i - 1));
        assert(deps@.take(i as int).last() == deps@[i - 1]);
        let k = to_chars(deps[i - 1].0.as_str());
        if chars_eq(&k, &target) {
            return Some(&deps[i - 1].1);
        }
        i = i - 1;
    }
    None
}

/// The message when the crate is not a `cdylib`.
pub open spec fn crate_type_message() -> Seq<char> {
    "crate-type must be cdylib to compile to wasm32-unknown-unknown. Add the following to your Cargo.toml file:\n\n[lib]\ncrate-type = [\"cdylib\"]"@
}

/// The crate's `[lib]` table lists `cdylib` among its crate types.
pub open spec fn is_cdylib(lib: Option<CargoLib>) -> bool {
    match lib {
        Some(l) => match l.crate_type {
            Some(types) => exists|i: int| 0 <= i < types@.len() && types@[i]@ == "cdylib"@,
            None => false,
        },
        None => false,
    }
}

/// The message when the versions of `wasm-bindgen-test` and `wasm-bindgen`
/// differ.
pub open spec fn version_mismatch_message(actual: Seq<char>, expected: Seq<char>) -> Seq<char> {
    "The `wasm-bindgen-test` dependency version ("@ + actual
        + ") must match the `wasm-bindgen` dependency version ("@ + expected + "), but it does not."@
}

/// The crate name for the crate of the manifest.
pub fn get_crate_name(manifest: &CargoManifest) -> (r: String)
    ensures
        r@ == manifest.package.name@,
{
    manifest.package.name.clone()
}

/// Get the version of `wasm-bindgen` specified as a dependency.
pub fn get_wasm_bindgen_version(manifest: &CargoManifest) -> (r: Result<String, Error>)
    ensures
        dependency_version_ok(
            match manifest.dependencies { Some(d) => Some(d@), None => None },
            "wasm-bindgen"@, r, "dependencies"@, "0.2"@),
{
    get_dependency_version(manifest.dependencies.as_ref(), "wasm-bindgen", "dependencies", "0.2")
}

/// Get the version of `wasm-bindgen-test` specified as a dev-dependency.
pub fn get_wasm_bindgen_test_version(manifest: &CargoManifest) -> (r: Result<String, Error>)
    ensures
        dependency_version_ok(
            match manifest.dev_dependencies { Some(d) => Some(d@), None => None },
            "wasm-bindgen-test"@, r, "dev-dependencies"@, "0.2"@),
{
    get_dependency_version(manifest.dev_dependencies.as_ref(), "wasm-bindgen-test", "dev-dependencies", "0.2")
}

/// Check that `wasm-bindgen` is a dependency: success when it has a version,
/// else the error looking it up gives.
pub fn check_wasm_bindgen(manifest: &CargoManifest) -> (r: Result<(), Error>)
    ensures
        match r {
            Ok(_) => get_wasm_bindgen_version_spec(*manifest) is Ok,
            Err(e) => dependency_version_ok(
                match manifest.dependencies { Some(d) => Some(d@), None => None },
                "wasm-bindgen"@, Err::<String, Error>(e), "dependencies"@, "0.2"@),
        },
{
    match get_wasm_bindgen_version(manifest) {
        Ok(_) => Ok(()),
        Err(e) => Err(e),
    }
}

/// Whether `wasm-bindgen` has a version in the manifest.
pub open spec fn get_wasm_bindgen_version_spec(m: CargoManifest) -> Result<(), ()> {
    match m.dependencies {
        Some(d) => match dep_lookup(d@, normalize_name("wasm-bindgen"@)) {
            Some(DepVersion::Given(_)) => Ok(()),
            _ => Err(()),
        },
        None => Err(()),
    }
}

/// The version `wasm-bindgen-test` is given, if it is a dev-dependency with
/// one.
pub open spec fn test_version_of(m: CargoManifest) -> Option<Seq<char>> {
    match m.dev_dependencies {
        Some(d) => match dep_lookup(d@, normalize_name("wasm-bindgen-test"@)) {
            Some(DepVersion::Given(actual)) => Some(actual),
            _ => None,
        },
        None => None,
    }
}

/// `wasm-bindgen-test`, when it has a version, has that of `wasm-bindgen`.
pub open spec fn test_version_matches(m: CargoManifest) -> bool {
    match test_version_of(m) {
        Some(actual) => actual == given_version(m.dependencies, "wasm-bindgen"@),
        None => true,
    }
}

/// Check that `wasm-bindgen-test`, when it is a dependency, has the version
/// of `wasm-bindgen`.
pub fn check_wasm_bindgen_test(manifest: &CargoManifest) -> (r: Result<(), Error>)
    ensures
        match get_wasm_bindgen_version_spec(*manifest) {
            Err(_) => r matches Err(e) && dependency_version_ok(
                match manifest.dependencies { Some(d) => Some(d@), None => None },
                "wasm-bindgen"@, Err::<String, Error>(e), "dependencies"@, "0.2"@),
            Ok(_) => if test_version_matches(*manifest) {
                r is Ok
            } else {
                r matches Err(e) && e matches Error::CrateConfig { message }
                    && message@ == version_mismatch_message(test_version_of(*manifest)->0,
                        given_version(manifest.dependencies, "wasm-bindgen"@))
            },
        },
{
    let expected_version = match get_wasm_bindgen_version(manifest) {
        Ok(v) => v,
        Err(e) => return Err(e),
    };
    if let Ok(actual_version) = get_wasm_bindgen_test_version(manifest) {
        if !str_eq(expected_version.as_str(), actual_version.as_str()) {
            let mut v: Vec<char> = Vec::new();
            push_str(&mut v, "The `wasm-bindgen-test` dependency version (");
            push_str(&mut v, actual_version.as_str());
            push_str(&mut v, ") must match the `wasm-bindgen` dependency version (");
            push_str(&mut v, expected_version.as_str());
            push_str(&mut v, "), but it does not.");
            proof {
                reveal_strlit("The `wasm-bindgen-test` dependency version (");
                reveal_strlit(") must match the `wasm-bindgen` dependency version (");
                reveal_strlit("), but it does not.");
                assert(v@ =~= version_mismatch_message(actual_version@, expected_version@));
            }
            return Err(Error::crate_config(from_chars(&v).as_str()));
        }
    }
    Ok(())
}

/// The version a dependency table gives `name`, when it gives one.
pub open spec fn given_version(deps: Option<Vec<(String, CargoDependency)>>, name: Seq<char>) -> Seq<char> {
    match deps {
        Some(d) => match dep_lookup(d@, normalize_name(name)) {
            Some(DepVersion::Given(v)) => v,
            _ => Seq::<char>::empty(),
        },
        None => Seq::<char>::empty(),
    }
}

/// Check that the crate is a `cdylib`.
pub fn check_crate_type(manifest: &CargoManifest) -> (r: Result<(), Error>)
    ensures
        is_cdylib(manifest.lib) ==> r is Ok,
        !is_cdylib(manifest.lib) ==> (r matches Err(e) && e matches Error::CrateConfig { message }
            && message@ == crate_type_message()),
{
    let mut ok = false;
    match &manifest.lib {
        Some(lib) => match &lib.crate_type {
            Some(types) => {
                let target = to_chars("cdylib");
                let mut i: usize = 0;
                while i < types.len()
                    invariant
                        i <= types.len(),
                        target@ == "cdylib"@,
                        !ok ==> forall|k: int| 0 <= k < i ==> types@[k]@ != "cdylib"@,
                        ok ==> exists|k: int| 0 <= k < types@.len() && types@[k]@ == "cdylib"@,
                    decreases types.len() - i,
                {
                    let c = to_chars(types[i].as_str());
                    if chars_eq(&c, &target) {
                        ok = true;
                    }
                    i = i + 1;
                }
            },
            None => {},
        },
        None => {},
    }
    if ok {
        return Ok(());
    }
    Err(Error::crate_config(
        "crate-type must be cdylib to compile to wasm32-unknown-unknown. Add the following to your Cargo.toml file:\n\n[lib]\ncrate-type = [\"cdylib\"]",
    ))
}

/// Check that the crate is properly configured: `wasm-bindgen` is a
/// dependency, `wasm-bindgen-test` (if any) has its version, and the crate is
/// a `cdylib`; the error is that of the first check that fails.
pub fn check_crate_config(manifest: &CargoManifest) -> (r: Result<(), Error>)
    ensures
        r is Ok <==> get_wasm_bindgen_version_spec(*manifest) is Ok && test_version_matches(*manifest)
            && is_cdylib(manifest.lib),
        get_wasm_bindgen_version_spec(*manifest) is Err ==> (r matches Err(e) && dependency_version_ok(
            match manifest.dependencies { Some(d) => Some(d@), None => None },
            "wasm-bindgen"@, Err::<String, Error>(e), "dependencies"@, "0.2"@)),
        get_wasm_bindgen_version_spec(*manifest) is Ok && !test_version_matches(*manifest) ==> (r matches Err(e)
            && e matches Error::CrateConfig { message } && message@ == version_mismatch_message(
                test_version_of(*manifest)->0, given_version(manifest.dependencies, "wasm-bindgen"@))),
        get_wasm_bindgen_version_spec(*manifest) is Ok && test_version_matches(*manifest) && !is_cdylib(manifest.lib)
            ==> (r matches Err(e) && e matches Error::CrateConfig { message } && message@ == crate_type_message()),
{
    match check_wasm_bindgen(manifest) {
        Ok(()) => {},
        Err(e) => return Err(e),
    }
    match check_wasm_bindgen_test(manifest) {
        Ok(()) => {},
        Err(e) => return Err(e),
    }
    check_crate_type(manifest)
}

/// The message when the crate directory has no manifest.
pub open spec fn missing_manifest_message(path: Seq<char>) -> Seq<char> {
    "Crate directory is missing a `Cargo.toml` file; is `"@ + path + "` the wrong directory?"@
}

/// The error when the crate directory at `path` has no `Cargo.toml`.
pub fn missing_manifest(path: &str) -> (r: Error)
    ensures
        r matches Error::CrateConfig { message } && message@ == missing_manifest_message(path@),
{
    let mut v: Vec<char> = Vec::new();
    push_str(&mut v, "Crate directory is missing a `Cargo.toml` file; is `");
    push_str(&mut v, path);
    push_str(&mut v, "` the wrong directory?");
    assert(v@ =~= missing_manifest_message(path@));
    Error::crate_config(from_chars(&v).as_str())
}

} // verus!
