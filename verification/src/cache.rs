//! Getting and configuring wasm-pack's binary cache.

use vstd::prelude::*;
use crate::binary_install::{Cache, no_home_message};
use crate::binary_install::path::path_join;

verus! {

/// Get wasm-pack's binary cache: the directory `WASM_PACK_CACHE` names
/// (`env_value`, when set), else the global cache named `wasm-pack`.
pub fn get_wasm_pack_cache(env_value: Option<String>) -> (r: Result<Cache, String>)
    ensures
        match env_value {
            Some(p) => r matches Ok(c) && c@ == p@,
            None => match r {
                Ok(c) => exists|d: Seq<char>| c@ == path_join(d, seq!['.'] + "wasm-pack"@),
                Err(m) => m@ == no_home_message(),
            },
        },
{
    match env_value {
        Some(path) => Ok(Cache::at(path.as_str())),
        None => Cache::new("wasm-pack"),
    }
}

} // verus!
