use vstd::prelude::*;

verus! {

/// Represents the set of CLI tools wasm-pack uses
#[derive(Clone, Copy, Debug)]
pub enum Tool {
    /// cargo-generate CLI tool
    CargoGenerate,
    /// wasm-bindgen CLI tools
    WasmBindgen,
    /// wasm-opt CLI tool
    WasmOpt,
}

impl Tool {
    /// The binary's name.
    pub open spec fn name_of(self) -> Seq<char> {
        match self {
            Tool::CargoGenerate => "cargo-generate"@,
            Tool::WasmBindgen => "wasm-bindgen"@,
            Tool::WasmOpt => "wasm-opt"@,
        }
    }

    /// Returns the binary's name
    pub fn name(&self) -> (r: &'static str)
        ensures
            r@ == self.name_of(),
    {
        proof {
            reveal_strlit("cargo-generate");
            reveal_strlit("wasm-bindgen");
            reveal_strlit("wasm-opt");
        }
        match self {
            Tool::CargoGenerate => "cargo-generate",
            Tool::WasmBindgen => "wasm-bindgen",
            Tool::WasmOpt => "wasm-opt",
        }
    }
}

} // verus!
