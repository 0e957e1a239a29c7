# Spacebot: configuration and language models

The rules by which Spacebot reads its configuration and talks to language
models, written in Verus. The functions of `src/` carry contracts that are proved,
but for the few that call other code, whose contracts are believed (see below).
What holds of several functions at once is stated in proof functions whose names
begin with `law_`.

- `src/config/` turns a configuration file and the environment into a
  configuration: providers and their keys, defaults and agents, messaging
  platforms and their bindings, and what may be shown of all that.
- `src/llm/` plans requests to providers, reads replies and streams, and decides
  on retries, fallbacks and cooldowns.
- `src/json.rs`, `src/text.rs`, `src/string_map.rs` and `src/views.rs` hold what
  both build on.
- `app/` is ordinary Rust around the library: HTTP, files, the clock, the
  environment, and the traits of `rig`.

A few functions call other crates (`serde_json`, `reqwest`, `chrono-tz`, `toml`,
`uuid`) or parts of the standard library that have no specification. Each such
call stands alone in a function marked `external_body`, whose comment says what
is taken for granted of it; two more such functions turn a `serde_json` value into
the library's own and back, and nothing is claimed of them. `src/text.rs` gives two
functions of the standard library a contract.
