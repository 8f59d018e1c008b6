# zed_dprint

A Zed extension that runs `dprint lsp`, with its decisions verified in Verus.

- `src/` is the verified library: platform-specific release names and paths, the `package.json`
  / `deno.json` dependency checks over a JSON model that `serde_json` parses, the selection of stale downloads, the
  launch settings, and two state machines that resolve which `dprint` executable to launch
  (`resolve` and, for the configuration-record layout in `dprint`, `dprint_resolve`). Each
  machine comes with proofs of the documented resolution order.
- `app/` is the extension itself: it answers the resolver's questions through the editor host
  (settings, worktree files, GitHub releases, downloads, the working directory).
- `tests/` exercises the library on concrete values.
