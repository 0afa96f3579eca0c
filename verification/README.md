# nixos_installer

The user-account, group, home-manager and package-selection pages of a terminal
NixOS installer, written in Verus. Each page is a state machine: a spec function
gives the page's next state, the users it leaves behind and the signal it sends
for every key, and the page's `handle_input` is proved to compute exactly that.

## Layout

- `src/` — the verified library.
  - `text.rs`: string helpers (joining, prefix stripping, substring search).
  - `user.rs`: users, their groups and home-manager settings, and updates on a
    list of users.
  - `pkgs.rs`: reading package names from the package index (JSON, through
    `serde_json`) and the decision of how long to wait for the index.
  - `keys.rs`: keys, the key classes the pages react to, and page signals.
  - `widgets.rs`, `picker.rs`, `help.rs`: line editor, menu, table, list,
    package picker and help overlay.
  - `accounts.rs`, `add_user.rs`, `alter_user.rs`, `home_manager.rs`,
    `system_pkgs.rs`: the pages.
- `tests/` — tests run against the compiled library.
- `app/` — the terminal program: event loop, drawing with `ratatui`, reading the
  package index and the configuration from disk, hashing passwords with
  `mkpasswd`.
