# nt_progress

Progress tracking and terminal display for concurrent jobs, with the text logic
of a news tracker, written in Verus: the library's functions carry `requires` /
`ensures` contracts over mathematical models and are proved against them.

## Layout

- `src/` — the verified library.
  - `job`, `job_traits`: the state of a job (counts, children, dependencies,
    failures, retries, status) and the capabilities every holder of a
    `BaseConfig` gets.
  - `mode_parameters`, `window_base`, `modes`, `titled`, `config`, `factory`:
    display modes (limited, capturing, window, window with title), their
    creation from parameters, and the registry and factory with fallbacks.
  - `indicators`, `progress_bar`, `bars`, `template`: template syntax, progress
    bar styles, and the drawing of every kind of indicator.
  - `io`, `memory_io`: output buffers and writers, the in-memory back end with
    UTF-8 line reading and writing.
  - `text`: wrapping text by grapheme clusters and display width.
  - `cursor`, `events`, `frame`, `display`, `screen`: cursor arithmetic, key
    and mouse events, the composed screen, when the display redraws, and the
    comparison of a screen with what a test expected.
  - `news`, `duration`, `cli`, `recovery`: the news tracker's model texts,
    human-readable durations, command-line values, retry and fallback settings
    and running an operation with a fallback.
  - `laws`, and `law_*` proof functions in the modules: properties that hold
    across operations.
- `tests/` — tests run against the compiled library.
- `app/` — what runs on floating-point numbers, the clock, the file system,
  the terminal and the command line, on top of the library.
