# mosaic_core

The decision logic of a coding-agent desktop backend, written in Verus and
proved against its contracts: configuration layers and requirements, the
conversation history and its token estimates, sub-agent spawn guards and
nicknames, shell-command policy, the model client's retry, fallback and
stream-event rules, MCP tool naming, authentication and token refresh, the
steps of a turn and the answers to session operations.

## Layout

- `src/` — the verified library. Each module states its data as spec
  functions and views; public functions carry `requires`/`ensures`, and the
  properties that relate several calls stand as public `proof fn law_*`
  items. Calls into `rand`, `sha1`, `shlex`, `uuid` and a few `std` path and
  string functions go through small trusted wrappers whose doc comments say
  what is assumed of them.
- `tests/` — ordinary Rust tests run against the compiled library.
- `app/` — unverified plumbing around the library: file and network I/O,
  JSON and TOML conversion (serde types that mirror the library's), the
  round loop of a turn, and session guards shared behind a mutex with
  reservations that free their slot on drop.

## Building

Verification runs Verus on `src/lib.rs`; the tests and `app/` build with the
ordinary Rust toolchain against the same crate.
