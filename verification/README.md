# Aether Code

An orchestrator for assisted Rust programming: intents become technical
tasks, a language model writes the code, the code is checked in a Docker
sandbox without network, failed attempts are sent back to the model with the
compiler's errors, and every finished change is committed with a message
that records the business rule, the test results and the todo context.

Layout:

- `src/` — the verified library: text operations, the todo context, commit
  messages and the commit procedure, the sandbox run, the build-and-commit
  flow, the correction loop, the intent analyst, the model client's logic,
  the Telegram helpers, the workspaces and their permissions, and the reading
  of test output. Flows that need outside work are state machines whose
  steps are proved against their specifications, with laws about every run.
- `tests/` — tests of the library.
- `app/` — the program: the HTTP server, the console mode, the model's HTTP
  client, and the files and processes that the library's decisions ask for.
