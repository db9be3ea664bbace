# tenex_tui

The verified core of the TENEX terminal client, written in Verus.

Every key the client handles goes through a function of this library that
decides, from a snapshot of the application state, what the key does: the
global hotkeys, the modal router, the home and chat views, the editors and
the many modals (settings, nudges, agents, projects, workspaces, bunker,
reports, debug statistics), and returns the action to carry out. The
terminal front end that would carry these actions out (the application
state and its drawing) is not part of this tree; `app/` holds the
command-line entry and the I/O helpers around the library. The library also holds the command palette's table and listing
order, the Jaeger trace URL rules, the decoding of pasted file paths,
comma-separated fields and numbers typed as text, sign-in decisions, and
the event loop's choices (Ctrl+C guard, pasted keys, audio notifications,
arriving messages).

Layout:

- `src/` — the library; each module states its functions' behaviour in
  `requires`/`ensures` over `Seq`, `Set` and spec functions, and proves the
  laws that relate them (`lemma_*` proof functions).
- `tests/` — tests of the library on concrete values.
- `app/` — the command-line entry and the I/O around the library
  (browser, clipboard, image files).

Outside crates: `serde_json` (pretty-printing raw events), `nostr` (event
ids in bech32 form, secret key parsing) and `png` (encoding clipboard
images) are called from the library through small trusted wrappers;
`arboard` and `clap` are used by `app/` only.
