# qubit_infra_verify

Focused, reusable Cargo verification suites for Rust projects (lock, build,
test, doc, package, readme, clippy, feature-matrix, cross, platform, miri,
address-sanitizer, loom, fuzz, audit), with the decisions behind them
verified by Verus.

## Layout

- `src/` is the verified library. Each suite's decisions are functions from
  plain values to plain values with exact contracts: which suites a plan
  covers and with which command, which workspace packages opt into Miri,
  AddressSanitizer or Loom (read from `cargo metadata` JSON), how `MIRIFLAGS`
  and `RUSTFLAGS` are extended, whether test output reports tests, which fuzz
  targets run and with which limits, the `cargo package` runs with their
  crates.io path patches, and the README dependency-version check.
  `src/laws.rs` holds the properties that span several functions.
- `app/` is the command-line tool: argument parsing, environment variables,
  files, and the Cargo subprocesses, around the library.
- `tests/` exercises the library on concrete inputs.

The `regex` crate matches README lines and `serde_json` quotes patch keys;
both are called from the library through small trusted wrappers whose
contracts are documented beside them.
