# HyteDeck

A daemon for the side panel of a PC case: it samples the system, the weather and the time spent in
each program, and pushes what it finds to the shell that renders the panel, over a WebSocket on
`127.0.0.1:9600`.

The decisions are in the library under `src/`, in Rust that Verus verifies. Around it, `app/` does
the input and output.

## Library

| module | what it holds |
| --- | --- |
| `text`, `interval`, `day` | text order and numbers, lengths of time, calendar days |
| `model` | snapshots, the panel layout, pushes |
| `config`, `settings_text` | settings, and the default settings file |
| `watcher` | when a changed settings file is read again |
| `availability`, `metrics`, `lhm` | what each source of system metrics contributes |
| `weather`, `qweather_fetch`, `weather_loop` | weather services, their answers, and when they are asked |
| `usage`, `usage_loop` | time per program, days, ranking, and when it is saved |
| `hub`, `client` | the latest push of each kind, and what a client is sent |
| `supervisor`, `instance`, `paths` | restarts of the shell, the one running daemon, files |
| `panel` | where the shell's window goes |

Temperatures, percentages and coordinates are of a type that the program chooses; the library only
passes them on.

## Programs

- `app/main.rs` is the daemon. With `--console` it logs to the standard output too.
- `app/shell_main.rs` is the shell, which Tauri builds from its own project.

The daemon keeps its settings in `%APPDATA%\auxdeck\config.toml`, which it writes if there is none
and reads again whenever it changes, its logs in `%APPDATA%\auxdeck\logs\`, and app usage in
`%APPDATA%\HyteDeck\usage\`.

The CPU temperature comes from LibreHardwareMonitor, whose web server must run on port 8085. The
weather needs `latitude` and `longitude` in the settings; the place is never guessed.
