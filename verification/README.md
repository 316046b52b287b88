# tendril

A scroll-driven Wayland compositor with a fixed two-column layout. Windows
are stacked in vertical strips, one strip per column, and scrolling the strip
is the main interaction.

## Layout

- `src/` — the verified layout engine (Verus):
  - `config.rs` — the settings and their defaults;
  - `geometry.rs` — integer strip geometry: content height, scroll limit,
    slot positions, column width, fitted window height;
  - `layout.rs` — windows, window identifiers, columns (focus movement,
    reordering) and workspaces;
  - `state.rs` — the compositor's logical state: workspaces, focus by
    identifier, workspace switching, refitting, new windows, backend events;
  - `input.rs` — keyboard bindings and their effect on the state;
  - `listing.rs` — the window listings the control socket reports;
  - `protocol.rs` — the JSON-RPC 2.0 messages of the control socket and
    method routing;
  - `laws.rs` — properties relating several operations.
- `app/` — the program around it: the Smithay backend, protocol handlers,
  rendering, the floating-point scroll and animation state, the control
  socket server, and the `tendrilc` client (the binary acts as the client
  when started under that name).
- `tests/` — tests of the library.
