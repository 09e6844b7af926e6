# hxnu_target_spec

The decision logic of the HXNU Rust toolchain wrappers (`hxnu-cargo`,
`hxnu-rustc`, `hxnu-sdk`), verified with Verus.

- `src/target.rs`: the supported targets, their triples, spec-file names and
  expected `arch` / endianness / LLVM prefix; triple lookup.
- `src/args.rs`: rules on command lines (selected target, `panic=abort`,
  `-Z unstable-options`, `-Z build-std`, information queries, host-side
  compilations) and the functions that add missing flags.
- `src/cargo.rs`, `src/rustc.rs`: what each wrapper hands to cargo or rustc.
- `src/layout.rs`: the SDK's targets directory and `hxnu-rustc` lookup, over
  a list of the paths that exist.
- `src/spec_file.rs`: the checks on a target spec file's fields.
- `src/sdk.rs`: bundle names, manifest text and the sysroot library filter.
- `src/text.rs`: string helpers with contracts over `Seq<char>`.

`app/` holds the programs themselves: file and process work, JSON reading,
command-line parsing and the rustc driver.
