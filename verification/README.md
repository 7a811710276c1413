# wasm-pack (verified core)

The decision-making core of `wasm-pack`, the tool that builds a Rust crate
to WebAssembly, generates its JavaScript bindings and packs the result as an
npm package, written in Verus with its behaviour stated as contracts.

- `src/` is the verified library: command options and the steps each
  command runs, the arguments of `cargo`, `wasm-bindgen`, `wasm-opt` and
  `npm`, the `package.metadata.wasm-pack` configuration (from the text of
  `Cargo.toml`), what the dependency tables and `Cargo.lock` give once
  deserialized, `package.json`, the download cache, which entries of a
  downloaded zip or tarball an installation unpacks and where, path
  arithmetic, and the messages of every error. Public proof functions state the laws
  that hold across calls.
- `tests/` runs the library on concrete values.
- `app/` is the `wasm-pack` program: command-line parsing, processes, the
  file system, HTTP downloads, and deserializing `Cargo.toml` and
  `Cargo.lock` into the library's types.
