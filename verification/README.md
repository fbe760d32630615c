# spotify_tui

A terminal client for Spotify: now playing, playback controls, search, playlists, Liked
Songs, the AI DJ, shuffle and repeat, and an in-app settings screen. The state of the
interface, the handling of every key, the settings editor, the login's text formats and
what the screens show are a library verified with Verus; a thin program around it talks to
the terminal, the Web API and the files.

## Layout

- `src/app.rs` — the interface state (`App`), its view, scrolling, and the repeat cycle.
- `src/control.rs` — what a key does (`handle_key`, specified by `key_step`) and what the
  player's answers do (`apply_outcome`, specified by `outcome_step`).
- `src/settings.rs` — toggling, editing and reading back settings; colours as `r,g,b`.
- `src/config.rs` — the configuration and its defaults.
- `src/spotify.rs` — tracks, devices, playback state, the playlist sidebar, durations.
- `src/auth.rs` — tokens, the login page address, PKCE, and the redirect callback.
- `src/view.rs` — the texts, rows and sizes the screens are drawn from.
- `src/text.rs` — characters, decimal numbers, trimming, splitting and searching.
- `app/` — the program: terminal, event loop, HTTP calls, configuration and token files.
- `tests/` — tests of the library on concrete values.

## Setup

Register an app at the Spotify developer dashboard with the redirect URI
`http://127.0.0.1:8888/callback`, then put `SPOTIFY_CLIENT_ID` (and, if it differs,
`SPOTIFY_REDIRECT_URI`) in `.env`. Playback control needs a Premium account and an active
device.
