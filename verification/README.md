# capsule

The decision logic of the Capsule desktop shell — a pill at the top of
the screen that grows into a dashboard, a launcher, pickers and dialogs —
written in Verus and verified.

## Layout

- `src/` — the verified library.
  - `mode.rs`: the capsule's modes, their sizes, control commands,
    transition plans and the inactivity watcher.
  - `shell.rs`: what the capsule does about its views' events, the volume
    pop-up and notification watchers, input and focus rules; `drag.rs`:
    files dragged over the pill.
  - `orbit.rs`: placement of the orbit buttons beside the idle pill.
  - `panels.rs`: the two lanes of satellite panels beside the dashboard.
  - `idle.rs`, `players.rs`, `dates.rs`, `calendar.rs`: the idle pill's
    line, media players, clock and date texts, the month grid.
  - `clipboard.rs`, `emoji.rs`, `launcher.rs`, `shelf.rs`, `picker.rs`,
    `polkit.rs`, `settings.rs`, `notification.rs`, `create_theme.rs`:
    the views' state and keyboard handling.
  - `nav.rs`, `text.rs`, `keys.rs`, `wallpapers.rs`, `radios.rs`,
    `launch.rs`, `sizes.rs`, `container.rs`: shared pieces.
- `tests/` — tests of the library on concrete values.
- `app/` — ordinary Rust around the library: floating-point animation
  curves, the wall clock, starting applications, key translation and
  reading files.
