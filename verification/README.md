# keyring_tui

The verified core of OpenKeyring's terminal interface and manual sync: the
logic is written in Verus and each public function states what it does in
its `requires` / `ensures` contract.

Layout:

- `src/` — the library, verified by Verus.
  - `sync/` — sync records and their JSON-side fields, base64 and UUID
    conversion, export and import, conflict detection and settlement, the
    sync service over an in-memory vault, nonce checks, cloud device identity
    and metadata, watcher events.
  - `tui/` — the command console (`app`), slash commands (`commands`),
    components (text input and area, select, dialogs, panels, tree), signals
    from components to the application, configuration, key events.
  - `text.rs` — character-sequence helpers with their specifications.
- `tests/` — tests of the library.
- `app/` — the plumbing around it: terminal, file system, JSON files,
  directory watching and prompts.

Design notes:

- Lookups by record identifier (conflict detection, the identifiers an
  import has already handled) and the grouping of health issues by severity
  are scans over `Vec`s. Verus can state and prove what a scan returns; for
  `HashMap` and `HashSet` keyed by `String` it proves nothing, so those are
  not used. Where several records share an identifier, the last one counts.
- The vault is an in-memory model (`sync::vault::Vault`): the records and
  their sync states, with the operations the sync service needs.
- The terminal loop in `app/` drives the command console only. The screens
  that hand actions (`Action`) back to the application, and the state types
  they work on, are not part of this crate, so there is no dispatch of those
  actions; the library's `signals` module turns the signals the components
  raise into notifications.
- The text components keep the cursor as a character index that always lies
  between two characters; `cursor_byte_offset` gives its byte offset in the
  UTF-8 text.
