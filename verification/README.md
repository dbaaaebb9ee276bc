# knotty

The logic of a desktop front end for the `knotd` notes daemon, verified with
Verus: command-line and settings handling, the daemon protocol's framing and
error rules, the markdown block model, the editor's formatting commands and
front matter, the explorer's naming and selection rules, the live search's
state machine, and the window shell's routing, startup, graph-request and
automation decisions.

## Layout

- `src/` — the verified library. Every public function states its result in
  `ensures`; laws that span several functions are public proof functions
  whose names start with `law_`.
  - `cli.rs`, `runtime_contract.rs`, `config/` — arguments, socket paths and
    settings.
  - `client/` — the daemon's data types, request numbering, message framing
    and error classification.
  - `ui/` — editor, explorer, search, graph, settings and window logic;
    `ui/block_editor/` reads markdown (tokenised by `pulldown-cmark`) into
    blocks and writes inline content as Pango markup.
  - `text.rs`, `paths.rs` — character-level string helpers.
- `tests/` — tests run against the compiled library.
- `app/` — the program around the library: socket I/O, JSON and TOML
  encoding, worker threads, and the few computations that need floating
  point.

Verify with Verus on `src/lib.rs`; build and test with Cargo.
