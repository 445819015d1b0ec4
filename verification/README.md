# arawn_engine

The decision-making core of the Arawn agent engine, written in Verus and
verified: permission rules and checks, session grants, hooks, the
prompt-injection guard, skills, agents, plugins and their marketplaces,
background tasks, plan mode, the system prompt, compaction, token
estimates, and the decisions of the agentic loop.

- `src/` is the verified library. Every function states its behaviour in
  `requires`/`ensures`; laws that relate several functions are public proof
  functions named `law_*`. Calls into other crates (`serde_json`,
  `similar`, `chrono`, `dirs`, and a few of `std`'s Unicode functions) go
  through small trusted wrappers whose contracts are written beside them.
- `app/` is the ordinary Rust around it: reading configuration, settings,
  manifests and markdown definitions from disk; running hook commands and
  `git`; the terminal prompt; file watchers; the approval log.
- `tests/` holds the tests of the library.
