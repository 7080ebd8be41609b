# deno_loader

The decisions of a module loader for JavaScript tools, verified with Verus: which
settings a workspace gets from its options, how specifiers and referrers are
resolved, how a requested module is loaded, which inline source map a module comes
with, and what the caller is told when something fails.

- `src/` is the verified library. Resolutions, loads and additions to the module
  graph are series of steps: each step says what to do, and takes back what came of
  it. `src/host.rs` holds everything that is taken from other crates.
- `app/` does what the steps ask for: it reads files, talks to the network through
  the embedder's HTTP client, and hands values to JavaScript.
- `tests/` runs the library.

A build for `wasm32` needs the feature `wasm` of `sys_traits`. On other targets it
has to stay off: `deno_npm_installer` does not compile with it there.
