# voxworld_web

The browser-facing side of Vox World: an HTTP/WebSocket gateway, a browser play
session host, and a WebGPU world preview. The rules these programs follow are a
Verus-verified library; the programs around it are ordinary Rust.

## Layout

- `src/` — the verified library (`voxworld_web`):
  - `gateway` — routing of connections (`/ws` relay, `/play` sessions with the
    user name from `?name=`, `/api/health`, `/api/status`, static files), the
    play-session limit (`VOXWORLD_WEB_MAX_SESSIONS`, else the player cap
    `VOXWORLD_MAX_PLAYERS`, else 100) and admission,
    content types, responses and the relay decision for WebSocket frames;
  - `session` — the play-session state machine (lifecycle stages, character
    creation and joining, chat forwarding, snapshot selection);
  - `chunks`, `patch` — chunk arithmetic of the preview patch, the chunks a pass
    generates, and the totals and checks of the patch mesh;
  - `sites`, `trade`, `labels`, `interaction` — settlement markers, trade texts,
    entity and sprite labels, and the outcome of an interaction attempt;
  - `input` — keyboard movement state and index data for the GPU;
  - `sorting`, `text` — stable sorting by integer keys and character helpers.
- `tests/` — tests of the library's public functions.
- `app/` — the gateway program (`main.rs`), the play session driver, the browser
  client and the WebGPU preview renderer. They call the library for every
  decision it makes and keep the I/O, the GPU work and the floating-point
  geometry.

Distances and amounts that the library orders are passed as the bits of
non-negative `f32` values, whose order is the order of the values.
