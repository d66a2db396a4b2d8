# xdp-tutorial

Tooling for the XDP tutorial in Rust, with its decisions verified in Verus.

- `src/` is the verified library: which options the `init` and `add`
  commands scaffold with (`scaffold`), how the `xtask` helper builds and runs
  a tutorial (`xtask`), and what the user-space runners of the templates load,
  attach, pin and report (`runner`, `basic03`, `basic04`), with the
  properties that tie the commands together (`laws`).
- `app/` is the `cargo xdp-tutorial` command and the runner programs: command
  line parsing, the scaffolding, the eBPF system calls and the logging, driven
  by the library.
- `tests/` runs the library on concrete values.
