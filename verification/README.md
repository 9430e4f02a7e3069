# tnotes

The state and the decisions behind the TNotes desktop client's views, and
the sync server's configuration, written in Verus with their contracts
proved.

- `src/` — the verified library.
  - `text` — string helpers reasoned about as `Seq<char>`; Unicode case
    mapping and `String::push` are reached through three small trusted
    wrappers around std.
  - `tree`, `subtree` — the sidebar's folder tree rows, with the laws that a
    folder's count covers its whole subtree and that a folder is shown
    exactly when its ancestors are expanded.
  - `sidebar`, `icons` — sidebar state (collapse, expanded folders, context
    menu, inline rename, folder icon picker) and the folder icon table.
  - `notes`, `views`, `export` — the note list, note and starred pages,
    folder page helpers, HTML previews and Markdown export.
  - `settings`, `settings_components`, `keybinding`, `updates` — the settings
    window, its building blocks, key capture, and the updates page.
  - `workspace`, `server` — the window's page switching and the sync
    server's configuration.
- `tests/` — tests of the library on concrete values.
- `app/` — ordinary Rust around the library: environment, server state,
  serde records, floating-point formatting and export files.
