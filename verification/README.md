# cmake-ls

`cmake-ls` prints the buildable targets of an existing CMake build tree, sorted,
deduplicated across configurations, one per line. It installs a CMake File API
query for the codemodel and the list of CMake input files, reuses the newest
reply when no input file is newer than it, and otherwise runs `cmake <build>`
and reads the reply CMake writes.

## Layout

- `src/` is the library, verified with Verus:
  - `error.rs`: the errors and their messages.
  - `text.rs`: byte-wise string order, path joining, decimal numbers, trimming.
  - `cancellation.rs`, `interrupt.rs`: interrupt counting and cancellation checkpoints.
  - `cli.rs`: the choice of the build directory and of the exit status.
  - `cmake/file_api.rs`: the reply model and its rules (versions, references
    confined to the reply directory, the newest reply index, target collection,
    freshness of a reply).
  - `cmake/reader.rs`: reading the newest reply, as state machines.
  - `cmake/process.rs`: running CMake in its own process group, with output
    capture and Ctrl+C handling, as a state machine.
  - `cmake/mod.rs`: the whole query for the targets of a build tree, which
    drives the machines above.
- `app/` is the command: argument parsing, JSON decoding, and the file,
  process and terminal operations that the library's state machines ask for.
- `tests/` exercises the library on concrete values.
