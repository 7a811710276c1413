//! Reading the `package.metadata.wasm-pack` section of a `Cargo.toml`.

use vstd::prelude::*;

verus! {

/// A TOML value, as far as the configuration reads it.
#[derive(Debug)]
pub enum TomlValue {
    /// A string.
    String(String),
    /// A boolean.
    Boolean(bool),
    /// An array.
    Array(Vec<TomlValue>),
    /// A table, as its entries in order.
    Table(Vec<TomlEntry>),
    /// Any other value (a number or a date).
    Other,
}

/// A key of a table, its value, and how the value displays (`{}`) and
/// debug-prints (`{:?}`).
#[derive(Debug)]
pub struct TomlEntry {
    /// The key.
    pub key: String,
    /// The value.
    pub value: TomlValue,
    /// How the value displays.
    pub shown: String,
    /// How the value debug-prints.
    pub debug: String,
}

} // verus!

verus! {

/// What a `[package.metadata.wasm-pack.build.<mode>]` table configures.
pub struct WasmPackConfigView {
    /// `debug`.
    pub debug: Option<bool>,
    /// `features`.
    pub features: Option<Seq<Seq<char>>>,
    /// `rustc-opt-level`.
    pub rustc_opt_level: Option<Seq<char>>,
    /// `wasm-bindgen`.
    pub wasm_bindgen: Option<bool>,
}

/// The configuration of one build mode.
#[derive(Debug)]
pub struct WasmPackConfig {
    /// `debug`.
    pub debug: Option<bool>,
    /// `features`.
    pub features: Option<Vec<String>>,
    /// `rustc-opt-level`.
    pub rustc_opt_level: Option<String>,
    /// `wasm-bindgen`.
    pub wasm_bindgen: Option<bool>,
}

/// What `[package.metadata.wasm-pack.build]` configures.
pub struct BuildModeView {
    /// The `debug` mode's table.
    pub debug: Option<WasmPackConfigView>,
    /// The `profiling` mode's table.
    pub profiling: Option<WasmPackConfigView>,
    /// The `production` mode's table.
    pub production: Option<WasmPackConfigView>,
}

/// The configuration of each build mode.
#[derive(Debug)]
pub struct BuildMode {
    /// The `debug` mode's table.
    pub debug: Option<WasmPackConfig>,
    /// The `profiling` mode's table.
    pub profiling: Option<WasmPackConfig>,
    /// The `production` mode's table.
    pub production: Option<WasmPackConfig>,
}

/// The build configuration of a crate.
#[derive(Debug)]
pub struct BuildConfig {
    /// The manifest it was read from.
    pub manifest_path: Option<String>,
    /// Its `build` table.
    pub build: Option<BuildMode>,
}

/// The views of strings.
pub open spec fn opt_strings(o: Option<Vec<String>>) -> Option<Seq<Seq<char>>> {
    match o {
        Some(v) => Some(crate::text::views(v@)),
        None => None,
    }
}

/// The view of an optional string.
pub open spec fn opt_view(o: Option<String>) -> Option<Seq<char>> {
    match o {
        Some(s) => Some(s@),
        None => None,
    }
}

impl WasmPackConfig {
    /// What this configures.
    pub open spec fn view(&self) -> WasmPackConfigView {
        WasmPackConfigView {
            debug: self.debug,
            features: opt_strings(self.features),
            rustc_opt_level: opt_view(self.rustc_opt_level),
            wasm_bindgen: self.wasm_bindgen,
        }
    }
}

/// The view of an optional mode configuration.
pub open spec fn opt_config(o: Option<WasmPackConfig>) -> Option<WasmPackConfigView> {
    match o {
        Some(c) => Some(c.view()),
        None => None,
    }
}

impl BuildMode {
    /// What this configures.
    pub open spec fn view(&self) -> BuildModeView {
        BuildModeView {
            debug: opt_config(self.debug),
            profiling: opt_config(self.profiling),
            production: opt_config(self.production),
        }
    }
}

/// The message for an unexpected key of a build mode's table.
pub open spec fn unexpected_mode_key(key: Seq<char>, shown: Seq<char>) -> Seq<char> {
    "unexpected `package.metadata.wasm_pack.build.<buildmode>` key `"@ + key + "` with value `"@ + shown + "`"@
}

/// The message for an unexpected key of the build table.
pub open spec fn unexpected_build_key(key: Seq<char>, shown: Seq<char>) -> Seq<char> {
    "unexpected `package.metadata.wasm_pack.build` key `"@ + key + "` with value `"@ + shown + "`"@
}

/// The message for an unexpected key of the wasm-pack table.
pub open spec fn unexpected_key(key: Seq<char>, shown: Seq<char>) -> Seq<char> {
    "unexpected `package.metadata.wasm_pack` key `"@ + key + "` with value `"@ + shown + "`"@
}

/// The message when `features` holds something other than strings.
pub open spec fn features_message() -> Seq<char> {
    "features must be a list of strings"@
}

/// Every item of an array is a string.
pub open spec fn all_strings(items: Seq<TomlValue>) -> bool {
    forall|i: int| 0 <= i < items.len() ==> #[trigger] items[i] is String
}

/// The strings of an array of strings.
pub open spec fn array_strings(items: Seq<TomlValue>) -> Seq<Seq<char>> {
    items.map_values(|v: TomlValue| match v {
        TomlValue::String(s) => s@,
        _ => Seq::<char>::empty(),
    })
}

/// What is wrong with an entry of a mode's table, if anything.
pub open spec fn config_entry_error(e: TomlEntry) -> Option<Seq<char>> {
    if e.key@ == "debug"@ && e.value is Boolean {
        None
    } else if e.key@ == "features"@ && e.value is Array {
        if all_strings(e.value->Array_0@) { None } else { Some(features_message()) }
    } else if e.key@ == "rustc-opt-level"@ && e.value is String {
        None
    } else if e.key@ == "wasm-bindgen"@ && e.value is Boolean {
        None
    } else {
        Some(unexpected_mode_key(e.key@, e.shown@))
    }
}

/// The error of the first faulty entry.
pub open spec fn config_error(es: Seq<TomlEntry>) -> Option<Seq<char>>
    decreases es.len(),
{
    if es.len() == 0 {
        None
    } else {
        match config_error(es.drop_last()) {
            Some(m) => Some(m),
            None => config_entry_error(es.last()),
        }
    }
}

/// The value of the last entry `key` that holds a value of the kind `pick`
/// accepts.
pub open spec fn last_bool(es: Seq<TomlEntry>, key: Seq<char>) -> Option<bool>
    decreases es.len(),
{
    if es.len() == 0 {
        None
    } else if es.last().key@ == key && es.last().value is Boolean {
        Some(es.last().value->Boolean_0)
    } else {
        last_bool(es.drop_last(), key)
    }
}

/// The string of the last entry `key` that holds one.
pub open spec fn last_string(es: Seq<TomlEntry>, key: Seq<char>) -> Option<Seq<char>>
    decreases es.len(),
{
    if es.len() == 0 {
        None
    } else if es.last().key@ == key && es.last().value is String {
        Some(es.last().value->String_0@)
    } else {
        last_string(es.drop_last(), key)
    }
}

/// The strings of the last `features` entry that holds an array.
pub open spec fn last_features(es: Seq<TomlEntry>) -> Option<Seq<Seq<char>>>
    decreases es.len(),
{
    if es.len() == 0 {
        None
    } else if es.last().key@ == "features"@ && es.last().value is Array {
        Some(array_strings(es.last().value->Array_0@))
    } else {
        last_features(es.drop_last())
    }
}

/// What a mode's table configures, or the error of its first faulty entry.
pub open spec fn wasm_pack_config_of(es: Seq<TomlEntry>) -> Result<WasmPackConfigView, Seq<char>> {
    match config_error(es) {
        Some(m) => Err(m),
        None => Ok(WasmPackConfigView {
            debug: last_bool(es, "debug"@),
            features: last_features(es),
            rustc_opt_level: last_string(es, "rustc-opt-level"@),
            wasm_bindgen: last_bool(es, "wasm-bindgen"@),
        }),
    }
}

/// Once a prefix of a table has a faulty entry, the table's error is that
/// entry's.
proof fn lemma_config_error_prefix(es: Seq<TomlEntry>, k: int)
    requires
        0 <= k <= es.len(),
        config_error(es.take(k)) is Some,
    ensures
        config_error(es) == config_error(es.take(k)),
    decreases es.len() - k,
{
    if k < es.len() {
        assert(es.take(k + 1).drop_last() =~= es.take(k));
        lemma_config_error_prefix(es, k + 1);
    } else {
        assert(es.take(k) =~= es);
    }
}

impl WasmPackConfig {
    /// Reads the configuration of a build mode from its table.
    pub fn from_table(table: &Vec<TomlEntry>) -> (r: Result<WasmPackConfig, String>)
        ensures
            match wasm_pack_config_of(table@) {
                Ok(c) => r matches Ok(x) && x.view() == c,
                Err(m) => r matches Err(e) && e@ == m,
            },
    {
        let mut cfg = WasmPackConfig { debug: None, features: None, rustc_opt_level: None, wasm_bindgen: None };
        let mut i: usize = 0;
        proof {
            reveal_strlit("debug");
            reveal_strlit("features");
            reveal_strlit("rustc-opt-level");
            reveal_strlit("wasm-bindgen");
        }
        while i < table.len()
            invariant
                i <= table.len(),
                config_error(table@.take(i as int)) is None,
                cfg.debug == last_bool(table@.take(i as int), "debug"@),
                opt_strings(cfg.features) == last_features(table@.take(i as int)),
                opt_view(cfg.rustc_opt_level) == last_string(table@.take(i as int), "rustc-opt-level"@),
                cfg.wasm_bindgen == last_bool(table@.take(i as int), "wasm-bindgen"@),
            decreases table.len() - i,
        {
            proof {
                reveal_strlit("debug");
                reveal_strlit("features");
                reveal_strlit("rustc-opt-level");
                reveal_strlit("wasm-bindgen");
                assert("debug"@.len() != "wasm-bindgen"@.len());
                assert("debug"@ != "wasm-bindgen"@);
                assert("debug"@ != "rustc-opt-level"@);
                assert("debug"@ != "features"@);
                assert("features"@ != "wasm-bindgen"@);
                assert("features"@ != "rustc-opt-level"@);
                assert("rustc-opt-level"@ != "wasm-bindgen"@);
            }
            let e = &table[i];
            let ghost pre = table@.take(i as int);
            assert(table@.take(i + 1).drop_last() =~= pre);
            assert(table@.take(i + 1).last() == *e);
            let key = e.key.as_str();
            let is_debug = crate::text::str_eq(key, "debug");
            let is_features = crate::text::str_eq(key, "features");
            let is_opt = crate::text::str_eq(key, "rustc-opt-level");
            let is_bindgen = crate::text::str_eq(key, "wasm-bindgen");
            match &e.value {
                TomlValue::Boolean(b) if is_debug => {
                    cfg.debug = Some(*b);
                },
                TomlValue::Array(a) if is_features => {
                    match strings_of(a) {
                        Some(features) => {
                            cfg.features = Some(features);
                        },
                        None => {
                            proof {
                                assert(config_error(table@.take(i + 1)) == Some(features_message()));
                                lemma_config_error_prefix(table@, i + 1);
                            }
                            return Err(String::from_str("features must be a list of strings"));
                        },
                    }
                },
                TomlValue::String(s) if is_opt => {
                    cfg.rustc_opt_level = Some(s.clone());
                },
                TomlValue::Boolean(b) if is_bindgen => {
                    cfg.wasm_bindgen = Some(*b);
                },
                _ => {
                    proof {
                        assert(config_error(table@.take(i + 1)) == Some(unexpected_mode_key(e.key@, e.shown@)));
                        lemma_config_error_prefix(table@, i + 1);
                    }
                    return Err(unexpected(
                        "unexpected `package.metadata.wasm_pack.build.<buildmode>` key `",
                        key,
                        e.shown.as_str(),
                    ));
                },
            }
            i = i + 1;
        }
        assert(table@.take(i as int) =~= table@);
        Ok(cfg)
    }
}

/// `prefix` + `key` + "` with value `" + `shown` + "`".
fn unexpected(prefix: &str, key: &str, shown: &str) -> (r: String)
    ensures
        r@ == prefix@ + key@ + "` with value `"@ + shown@ + "`"@,
{
    let mut v: Vec<char> = Vec::new();
    crate::text::push_str(&mut v, prefix);
    crate::text::push_str(&mut v, key);
    crate::text::push_str(&mut v, "` with value `");
    crate::text::push_str(&mut v, shown);
    crate::text::push_str(&mut v, "`");
    assert(v@ =~= prefix@ + key@ + "` with value `"@ + shown@ + "`"@);
    crate::text::from_chars(&v)
}

/// The strings of an array, if it holds only strings.
fn strings_of(items: &Vec<TomlValue>) -> (r: Option<Vec<String>>)
    ensures
        all_strings(items@) ==> (r matches Some(v) && crate::text::views(v@) == array_strings(items@)),
        !all_strings(items@) ==> r is None,
{
    let mut out: Vec<String> = Vec::new();
    let mut i: usize = 0;
    while i < items.len()
        invariant
            i <= items.len(),
            forall|k: int| 0 <= k < i ==> #[trigger] items@[k] is String,
            crate::text::views(out@) == array_strings(items@.take(i as int)),
        decreases items.len() - i,
    {
        match &items[i] {
            TomlValue::String(s) => {
                let ghost before = crate::text::views(out@);
                out.push(s.clone());
                assert(crate::text::views(out@) =~= before.push(s@));
                assert(array_strings(items@.take(i + 1)) =~= array_strings(items@.take(i as int)).push(s@));
                assert(crate::text::views(out@) =~= array_strings(items@.take(i + 1)));
            },
            _ => {
                return None;
            },
        }
        i = i + 1;
    }
    assert(items@.take(i as int) =~= items@);
    Some(out)
}

} // verus!

verus! {

/// The keys of the build table: the build modes.
pub open spec fn is_mode_key(k: Seq<char>) -> bool {
    k == "debug"@ || k == "profiling"@ || k == "production"@
}

/// What is wrong with an entry of the build table, if anything.
pub open spec fn build_entry_error(e: TomlEntry) -> Option<Seq<char>> {
    if is_mode_key(e.key@) && e.value is Table {
        match wasm_pack_config_of(e.value->Table_0@) {
            Err(m) => Some(m),
            Ok(_) => None,
        }
    } else {
        Some(unexpected_build_key(e.key@, e.shown@))
    }
}

/// The error of the build table's first faulty entry.
pub open spec fn build_error(es: Seq<TomlEntry>) -> Option<Seq<char>>
    decreases es.len(),
{
    if es.len() == 0 {
        None
    } else {
        match build_error(es.drop_last()) {
            Some(m) => Some(m),
            None => build_entry_error(es.last()),
        }
    }
}

/// The configuration of the last table under `key`.
pub open spec fn last_mode(es: Seq<TomlEntry>, key: Seq<char>) -> Option<WasmPackConfigView>
    decreases es.len(),
{
    if es.len() == 0 {
        None
    } else if es.last().key@ == key && es.last().value is Table {
        match wasm_pack_config_of(es.last().value->Table_0@) {
            Ok(c) => Some(c),
            Err(_) => None,
        }
    } else {
        last_mode(es.drop_last(), key)
    }
}

/// What the build table configures, or the error of its first faulty entry.
pub open spec fn build_mode_of(es: Seq<TomlEntry>) -> Result<BuildModeView, Seq<char>> {
    match build_error(es) {
        Some(m) => Err(m),
        None => Ok(BuildModeView {
            debug: last_mode(es, "debug"@),
            profiling: last_mode(es, "profiling"@),
            production: last_mode(es, "production"@),
        }),
    }
}

/// A build table holding one mode's table configures that mode, and only
/// that one: `debug` the debug builds, `profiling` the profiling builds,
/// `production` the release builds; any other key is refused.
pub proof fn lemma_mode_table_configures_its_mode(e: TomlEntry)
    requires
        e.value is Table,
        wasm_pack_config_of(e.value->Table_0@) is Ok,
    ensures
        ({
            let c = wasm_pack_config_of(e.value->Table_0@)->Ok_0;
            let es = seq![e];
            &&& e.key@ == "debug"@ ==> build_mode_of(es) == Ok::<BuildModeView, Seq<char>>(
                BuildModeView { debug: Some(c), profiling: None, production: None })
            &&& e.key@ == "profiling"@ ==> build_mode_of(es) == Ok::<BuildModeView, Seq<char>>(
                BuildModeView { debug: None, profiling: Some(c), production: None })
            &&& e.key@ == "production"@ ==> build_mode_of(es) == Ok::<BuildModeView, Seq<char>>(
                BuildModeView { debug: None, profiling: None, production: Some(c) })
            &&& !(e.key@ == "debug"@ || e.key@ == "profiling"@ || e.key@ == "production"@)
                ==> build_mode_of(es) is Err
        }),
{
    reveal_strlit("debug");
    reveal_strlit("profiling");
    reveal_strlit("production");
    assert("debug"@.len() == 5 && "profiling"@.len() == 9 && "production"@.len() == 10);
    let es = seq![e];
    let none = Seq::<TomlEntry>::empty();
    assert(es.drop_last() =~= none);
    assert(es.last() == e);
    assert(build_error(none) is None);
    assert(last_mode(none, "debug"@) is None);
    assert(last_mode(none, "profiling"@) is None);
    assert(last_mode(none, "production"@) is None);
    assert(build_error(es) == build_entry_error(e));
    assert(last_mode(es, "debug"@) == if e.key@ == "debug"@ { Some(wasm_pack_config_of(e.value->Table_0@)->Ok_0) } else { None::<WasmPackConfigView> });
    assert(last_mode(es, "profiling"@) == if e.key@ == "profiling"@ { Some(wasm_pack_config_of(e.value->Table_0@)->Ok_0) } else { None::<WasmPackConfigView> });
    assert(last_mode(es, "production"@) == if e.key@ == "production"@ { Some(wasm_pack_config_of(e.value->Table_0@)->Ok_0) } else { None::<WasmPackConfigView> });
}

proof fn lemma_build_error_prefix(es: Seq<TomlEntry>, k: int)
    requires
        0 <= k <= es.len(),
        build_error(es.take(k)) is Some,
    ensures
        build_error(es) == build_error(es.take(k)),
    decreases es.len() - k,
{
    if k < es.len() {
        assert(es.take(k + 1).drop_last() =~= es.take(k));
        lemma_build_error_prefix(es, k + 1);
    } else {
        assert(es.take(k) =~= es);
    }
}

impl BuildMode {
    /// Reads the configuration of each build mode from the build table.
    pub fn from_table(table: &Vec<TomlEntry>) -> (r: Result<BuildMode, String>)
        ensures
            match build_mode_of(table@) {
                Ok(b) => r matches Ok(x) && x.view() == b,
                Err(m) => r matches Err(e) && e@ == m,
            },
    {
        let mut mode = BuildMode { debug: None, profiling: None, production: None };
        let mut i: usize = 0;
        while i < table.len()
            invariant
                i <= table.len(),
                build_error(table@.take(i as int)) is None,
                opt_config(mode.debug) == last_mode(table@.take(i as int), "debug"@),
                opt_config(mode.profiling) == last_mode(table@.take(i as int), "profiling"@),
                opt_config(mode.production) == last_mode(table@.take(i as int), "production"@),
            decreases table.len() - i,
        {
            proof {
                reveal_strlit("debug");
                reveal_strlit("profiling");
                reveal_strlit("production");
                assert("debug"@.len() != "profiling"@.len());
                assert("debug"@.len() != "production"@.len());
                assert("debug"@ != "profiling"@);
                assert("debug"@ != "production"@);
                assert("profiling"@ != "production"@) by {
                    assert("profiling"@[3] != "production"@[3]);
                }
            }
            let e = &table[i];
            let ghost pre = table@.take(i as int);
            assert(table@.take(i + 1).drop_last() =~= pre);
            assert(table@.take(i + 1).last() == *e);
            let key = e.key.as_str();
            let is_debug = crate::text::str_eq(key, "debug");
            let is_profiling = crate::text::str_eq(key, "profiling");
            let is_production = crate::text::str_eq(key, "production");
            match &e.value {
                TomlValue::Table(t) if is_debug || is_profiling || is_production => {
                    let c = match WasmPackConfig::from_table(t) {
                        Ok(c) => c,
                        Err(m) => {
                            proof {
                                lemma_build_error_prefix(table@, i + 1);
                            }
                            return Err(m);
                        },
                    };
                    if is_debug {
                        mode.debug = Some(c);
                    } else if is_profiling {
                        mode.profiling = Some(c);
                    } else {
                        mode.production = Some(c);
                    }
                },
                _ => {
                    proof {
                        assert(build_error(table@.take(i + 1)) == Some(unexpected_build_key(e.key@, e.shown@)));
                        lemma_build_error_prefix(table@, i + 1);
                    }
                    return Err(unexpected(
                        "unexpected `package.metadata.wasm_pack.build` key `",
                        key,
                        e.shown.as_str(),
                    ));
                },
            }
            i = i + 1;
        }
        assert(table@.take(i as int) =~= table@);
        Ok(mode)
    }
}

/// The last entry of `es` under `key`.
pub open spec fn last_entry(es: Seq<TomlEntry>, key: Seq<char>) -> Option<TomlEntry>
    decreases es.len(),
{
    if es.len() == 0 {
        None
    } else if es.last().key@ == key {
        Some(es.last())
    } else {
        last_entry(es.drop_last(), key)
    }
}

/// The entry under `key` when `v` is a table (`toml::Value::get`).
pub open spec fn table_get(v: TomlValue, key: Seq<char>) -> Option<TomlEntry> {
    match v {
        TomlValue::Table(es) => last_entry(es@, key),
        _ => None,
    }
}

/// The `package.metadata.wasm-pack` entry of a manifest, if there is one.
pub open spec fn wasm_pack_metadata_of(v: TomlValue) -> Option<TomlEntry> {
    match table_get(v, "package"@) {
        None => None,
        Some(p) => match table_get(p.value, "metadata"@) {
            None => None,
            Some(m) => table_get(m.value, "wasm-pack"@),
        },
    }
}

/// What is wrong with an entry of the wasm-pack table, if anything.
pub open spec fn wasm_pack_entry_error(e: TomlEntry) -> Option<Seq<char>> {
    if e.key@ == "build"@ && e.value is Table {
        match build_mode_of(e.value->Table_0@) {
            Err(m) => Some(m),
            Ok(_) => None,
        }
    } else {
        Some(unexpected_key(e.key@, e.shown@))
    }
}

/// The error of the wasm-pack table's first faulty entry.
pub open spec fn wasm_pack_error(es: Seq<TomlEntry>) -> Option<Seq<char>>
    decreases es.len(),
{
    if es.len() == 0 {
        None
    } else {
        match wasm_pack_error(es.drop_last()) {
            Some(m) => Some(m),
            None => wasm_pack_entry_error(es.last()),
        }
    }
}

/// The build configuration of the last `build` table.
pub open spec fn last_build(es: Seq<TomlEntry>) -> Option<BuildModeView>
    decreases es.len(),
{
    if es.len() == 0 {
        None
    } else if es.last().key@ == "build"@ && es.last().value is Table {
        match build_mode_of(es.last().value->Table_0@) {
            Ok(b) => Some(b),
            Err(_) => None,
        }
    } else {
        last_build(es.drop_last())
    }
}

/// The message when the wasm-pack metadata is not a table.
pub open spec fn invalid_config_message(debug: Seq<char>) -> Seq<char> {
    "wasm-pack configuration invalid: "@ + debug
}

/// What a manifest configures of the build: nothing without wasm-pack
/// metadata; otherwise the metadata table's `build` table; or the error.
pub open spec fn parse_config_of(v: TomlValue) -> Result<Option<BuildModeView>, Seq<char>> {
    match wasm_pack_metadata_of(v) {
        None => Ok(None),
        Some(m) => match m.value {
            TomlValue::Table(es) => match wasm_pack_error(es@) {
                Some(e) => Err(e),
                None => Ok(last_build(es@)),
            },
            _ => Err(invalid_config_message(m.debug@)),
        },
    }
}

proof fn lemma_wasm_pack_error_prefix(es: Seq<TomlEntry>, k: int)
    requires
        0 <= k <= es.len(),
        wasm_pack_error(es.take(k)) is Some,
    ensures
        wasm_pack_error(es) == wasm_pack_error(es.take(k)),
    decreases es.len() - k,
{
    if k < es.len() {
        assert(es.take(k + 1).drop_last() =~= es.take(k));
        lemma_wasm_pack_error_prefix(es, k + 1);
    } else {
        assert(es.take(k) =~= es);
    }
}

/// The entry under `key` when `v` is a table.
fn get<'a>(v: &'a TomlValue, key: &str) -> (r: Option<&'a TomlEntry>)
    ensures
        match r {
            Some(e) => table_get(*v, key@) == Some(*e),
            None => table_get(*v, key@) is None,
        },
{
    match v {
        TomlValue::Table(es) => {
            let mut i = es.len();
            assert(es@.take(i as int) =~= es@);
            while i > 0
                invariant
                    i <= es.len(),
                    table_get(*v, key@) == last_entry(es@, key@),
                    last_entry(es@, key@) == last_entry(es@.take(i as int), key@),
                decreases i,
            {
                assert(es@.take(i as int).drop_last() =~= es@.take(i - 1));
                assert(es@.take(i as int).last() == es@[i - 1]);
                if crate::text::str_eq(es[i - 1].key.as_str(), key) {
                    return Some(&es[i - 1]);
                }
                i = i - 1;
            }
            None
        },
        _ => None,
    }
}

/// Reads the build configuration from a parsed `Cargo.toml` found at
/// `manifest_path`.
pub fn parse_config(manifest_path: String, cargo_toml: &TomlValue) -> (r: Result<BuildConfig, String>)
    ensures
        match parse_config_of(*cargo_toml) {
            Ok(b) => r matches Ok(c) && c.manifest_path == Some(manifest_path) && match b {
                Some(bv) => c.build matches Some(x) && x.view() == bv,
                None => c.build is None,
            },
            Err(m) => r matches Err(e) && e@ == m,
        },
{
    proof {
        reveal_strlit("package");
        reveal_strlit("metadata");
        reveal_strlit("wasm-pack");
    }
    let metadata = match get(cargo_toml, "package") {
        None => None,
        Some(p) => match get(&p.value, "metadata") {
            None => None,
            Some(m) => get(&m.value, "wasm-pack"),
        },
    };
    let metadata = match metadata {
        None => return Ok(BuildConfig { manifest_path: Some(manifest_path), build: None }),
        Some(m) => m,
    };
    let es = match &metadata.value {
        TomlValue::Table(es) => es,
        _ => {
            let mut v: Vec<char> = Vec::new();
            crate::text::push_str(&mut v, "wasm-pack configuration invalid: ");
            crate::text::push_str(&mut v, metadata.debug.as_str());
            return Err(crate::text::from_chars(&v));
        },
    };
    let mut build: Option<BuildMode> = None;
    let mut i: usize = 0;
    while i < es.len()
        invariant
            i <= es.len(),
            wasm_pack_metadata_of(*cargo_toml) == Some(*metadata),
            metadata.value == TomlValue::Table(*es),
            wasm_pack_error(es@.take(i as int)) is None,
            match last_build(es@.take(i as int)) {
                Some(bv) => build matches Some(x) && x.view() == bv,
                None => build is None,
            },
        decreases es.len() - i,
    {
        proof {
            reveal_strlit("build");
        }
        let e = &es[i];
        assert(es@.take(i + 1).drop_last() =~= es@.take(i as int));
        assert(es@.take(i + 1).last() == *e);
        let is_build = crate::text::str_eq(e.key.as_str(), "build");
        match &e.value {
            TomlValue::Table(t) if is_build => {
                match BuildMode::from_table(t) {
                    Ok(b) => {
                        build = Some(b);
                    },
                    Err(m) => {
                        proof {
                            lemma_wasm_pack_error_prefix(es@, i + 1);
                        }
                        return Err(m);
                    },
                }
            },
            _ => {
                proof {
                    assert(wasm_pack_error(es@.take(i + 1)) == Some(unexpected_key(e.key@, e.shown@)));
                    lemma_wasm_pack_error_prefix(es@, i + 1);
                }
                return Err(unexpected("unexpected `package.metadata.wasm_pack` key `", e.key.as_str(), e.shown.as_str()));
            },
        }
        i = i + 1;
    }
    assert(es@.take(i as int) =~= es@);
    Ok(BuildConfig { manifest_path: Some(manifest_path), build })
}

/// `toml::Value`, held opaquely on its way to the library's form.
#[verifier::external_type_specification]
#[verifier::external_body]
pub struct ExTomlDocument(toml::Value);

/// The library's form of a parsed TOML value: strings, booleans, arrays and
/// tables as they are (each table entry with its value's `Display` and
/// `Debug` text), anything else as `Other`. Nothing is stated of it here:
/// `parse_toml`'s name covers what comes out.
#[verifier::external_body]
fn convert_toml(v: &toml::Value) -> TomlValue {
    match v {
        toml::Value::String(s) => TomlValue::String(s.clone()),
        toml::Value::Boolean(b) => TomlValue::Boolean(*b),
        toml::Value::Array(items) => TomlValue::Array(items.iter().map(convert_toml).collect()),
        toml::Value::Table(t) => TomlValue::Table(t.iter().map(|(k, x)| TomlEntry {
            key: k.clone(),
            value: convert_toml(x),
            shown: x.to_string(),
            debug: format!("{:?}", x),
        }).collect()),
        _ => TomlValue::Other,
    }
}

/// What `text.parse::<toml::Value>()` makes of `text`, in the library's
/// form, or the parse error's message.
pub uninterp spec fn toml_value_of(text: Seq<char>) -> Result<TomlValue, Seq<char>>;

/// Parses TOML text with `str::parse::<toml::Value>` and gives it in the
/// library's form; the result is the named function of the text.
#[verifier::external_body]
fn parse_toml(text: &str) -> (r: Result<TomlValue, String>)
    ensures
        match r {
            Ok(v) => toml_value_of(text@) == Ok::<TomlValue, Seq<char>>(v),
            Err(e) => toml_value_of(text@) == Err::<TomlValue, Seq<char>>(e@),
        },
{
    match text.parse::<toml::Value>() {
        Ok(v) => Ok(convert_toml(&v)),
        Err(e) => Err(e.to_string()),
    }
}

/// The message when a `Cargo.toml` is not TOML.
pub open spec fn toml_parse_failed_message() -> Seq<char> {
    "Failed to parse Cargo.toml"@
}

/// Reads the build configuration from the text of the `Cargo.toml` found at
/// `manifest_path`: text that is not TOML is refused, a parsed value is
/// read as `parse_config` reads it.
pub fn parse_config_text(manifest_path: String, text: &str) -> (r: Result<BuildConfig, String>)
    ensures
        match toml_value_of(text@) {
            Err(_) => r matches Err(e) && e@ == toml_parse_failed_message(),
            Ok(v) => match parse_config_of(v) {
                Ok(b) => r matches Ok(c) && c.manifest_path == Some(manifest_path) && match b {
                    Some(bv) => c.build matches Some(x) && x.view() == bv,
                    None => c.build is None,
                },
                Err(m) => r matches Err(e) && e@ == m,
            },
        },
{
    match parse_toml(text) {
        Ok(v) => parse_config(manifest_path, &v),
        Err(_) => Err(String::from_str("Failed to parse Cargo.toml")),
    }
}

} // verus!
