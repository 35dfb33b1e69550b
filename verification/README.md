# crepus

`crepus` is the command-line tool of the Crepuscularity UI toolkit: it
scaffolds and builds native (iOS, Android, Apple), web, terminal and desktop
projects, edits their project files, and benchmarks them.

The decisions of the tool live in a library that is verified with
[Verus](https://github.com/verus-lang/verus): every public function states in
its contract what it returns, and the laws that hold across calls are proved
as proof functions (`law_*`).

## Layout

- `src/` — the verified library, one module per concern: build options and
  targets (`build_options`, `target_build`, `crepus_toml`, `wasm_bundle`),
  native projects (`native_ir`, `native_build`, `native_mobile`,
  `capabilities`, `share_extension`, `apple_project`, `ios`, `doctor`),
  the mobile action registry (`mobile_actions`, `preferences`), the desktop
  dev loop (`builder`, `dev`, `hud`, `events`, `gpui_scaffold`), scaffolds
  and generators (`scaffold`, `moonshine`, `flutter`, `tauri`, `tui`,
  `components`, `docs`, `naming`), command dispatch (`cli`, `dispatch`,
  `aurora`, `benchmark`), and text and number helpers (`text`, `num`).
  Calls into std and outside crates that cannot be verified sit behind small
  trusted wrappers whose contracts say what the library relies on.
- `app/` — the executable: argument parsing, files, processes and output.
  It hands plain values to the library and acts on what comes back.
- `tests/` — tests of the library on concrete values.

Verify the library by running Verus on `src/lib.rs`; the tests are ordinary Rust tests.
