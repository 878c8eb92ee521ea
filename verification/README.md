# kannaka-tui

The terminal dashboard of the Kannaka constellation: a coding agent whose every
change asks for a decision, and seven windows into the same memory. Everything it
does goes out to the `kannaka` binary.

- `src/` is the verified library. The state of the application is a value, and every
  key, command and message is a step from one state to the next together with the
  actions to be done. `laws.rs` and the `law_*` functions of the other modules say
  what holds of those steps.
  - `app.rs`, `control.rs`, `submit.rs`, `polls.rs`: the application and its events
  - `bar.rs`, `keys.rs`, `command.rs`, `cli.rs`: what is typed
  - `harness.rs`, `agent.rs`, `prompts.rs`: the coding agent
  - `chat.rs`, `bus.rs`, `payload.rs`, `cosmos.rs`, `log.rs`, `reports.rs`: the other tabs
  - `view/`: the rows that are seen
  - `text.rs`, `json.rs`, `settings.rs`, `config.rs`, `palette.rs`, `clock.rs`, `buffer.rs`,
    `action.rs`
- `app/` is the program around it: the terminal, the processes, the clock, and what
  is computed in floating point.
- `tests/` runs the library with the crates that it calls.
