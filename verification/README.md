# daedalus

A local catalog for AI model artifacts (checkpoints, LoRAs, VAEs, workflows
and the like): configuration of storage roots, deterministic placement of
files, a SQLite catalog of library items and background jobs, an HTTP daemon
and a command-line interface.

## Layout

- `src/` — the verified library (Verus).
  - `text.rs` — trimming, ASCII case folding, decimal rendering, joining.
  - `paths.rs` — joining paths by the Unix rules; names for what
    `std::path::Path` reports of a path.
  - `domain.rs` — the model taxonomy and the records exchanged by the service.
  - `common.rs` — the error type, clock access, path-component sanitizing,
    model-file extensions.
  - `config.rs` — configuration, defaults, path resolution and validation.
  - `placement.rs` — managed paths and collision-free destinations.
  - `catalog.rs` — how records are stored as rows and decoded again; job
    status updates.
  - `ordering.rs` — the order in which library items and jobs are listed,
    and the sorts that produce it.
  - `sources.rs` — the Civitai adapter's identity, health and type mapping.
  - `service.rs` — the service state and its decisions (configuration
    checks, kind inference, import and rescan plans).
  - `api.rs` — HTTP error answers, URL handling and the desktop shell's
    backend choice.
- `app/` — the program around the library: TOML and JSON encodings, SQLite
  access, the axum daemon, the blocking HTTP client, the CLI and the desktop
  shell's start-up.
- `tests/` — tests of the library.
