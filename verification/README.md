# hoards

The verified core of the Hoards terminal interface, a TUI that tracks
command-line tools across package managers. The decisions behind the
interface are written in Verus and proved against their contracts. `app/`
holds the glue to the outside world: running package managers, asking
registries, reading terminal events into the session's event loop, and the
labels that need floating point; drawing the screen with ratatui is left to
its caller.

## Layout

- `src/` — the verified library.
  - `text`, `json` — string helpers and the JSON documents registries answer
    with (parsed by serde_json through two trusted calls: the parse and the
    conversion of its values).
  - `types`, `config`, `config_menu` — tabs, sources, themes and the
    settings menu with its layout.
  - `tools`, `fuzzy`, `labels`, `cache` — the tool list: fuzzy search,
    filters, ordering, favourites and labels.
  - `history`, `undo`, `command`, `commands`, `keys`, `mouse`, `session` —
    input: key and mouse routing, the command palette, undo/redo, and the
    session state stepped by palette keys.
  - `pending`, `requests`, `install`, `overlay` — install, update and
    uninstall requests, the step-by-step runs and their output.
  - `version`, `updates`, `manager_output` — version ordering and the
    parsing of package-manager and registry answers.
  - `discover`, `github`, `readme` — the Discover tab, README lookup and
    the link picker.
  - `styled`, `footer`, `dialogs`, `display`, `theme`, `notification`,
    `lists`, `details`, `dates` — what the screens show, as styled text and
    values; `dates` reads times of last use with chrono.
- `tests/` — tests of the library on concrete values.
- `app/` — the unverified shell: running package managers and sudo,
  registry requests, the event loop over terminal keys, clock-based and
  floating-point labels, and ratatui conversions.
