# deepseek-harness-sdk-rs

A verified SDK core for driving a DeepSeek Harness runtime over the line-delimited JSON-RPC 2.0
protocol on its stdio.

`src/` is a library without I/O, verified by Verus. Its types hold the state of the SDK: which
requests await a response, who receives which notification, how far a run has been collected, how
far the runtime has been shut down, what has to be fetched next. Their methods take in what
happened and give back what to do, and their contracts say exactly which.

- `api`, `client`, `transport`, `frames`, `lineage`, `events`: the harness, the protocol client,
  request correlation and fan-out, what a line is, session trees, and what session events say.
- `launch`, `runtime`, `paths`: how the runtime is launched, how it is acquired from a package
  index, and how paths are resolved.
- `fake_runtime`: a runtime that plays a script.
- `trusted`: everything believed without proof of `serde_json`, `hex`, `sha2`, `zip`, `uuid` and
  `std::path`.

What relates several functions is stated and proved as a public proof function whose name begins
with `law_`.

`app/` is the SDK at work, in ordinary Rust: the subprocess, its pipes, signals, timers, the network
and the file system around the library. `tests/` runs the library against the scripted runtime and
against the real crates.
