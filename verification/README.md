# oxide_agent

A local-first AI agent that talks to models served by Ollama, runs tools
after asking the user, and keeps named sessions.

The decision logic is a library verified with Verus:

- `src/`: the library. Configuration loading rules and validation, the
  agent catalogue, session and permission bookkeeping, the tool-approval
  state machines, the launch plans and reply handling of MCP servers, the
  parser of streamed model output, the agent task and orchestrator state
  machines, and the state and layout of the terminal interface. Every
  function carries a contract; properties that span several calls stand as
  public proof functions (`lemma_*`). JSON text is read through `serde_json`
  (see `src/json.rs`); what a lookup returns is named there and the
  contracts are written over those names.
  Collections keyed by text (the allowed tools, the agent directory, the
  status table, the in-memory mocks) are held as `Vec`s with their
  invariant stated (no name or identifier held twice), rather than as
  `HashSet` or `HashMap`: Verus reasons about a `Vec` through its `Seq`
  view, while for a map or set keyed by `String` it proves next to nothing.
  Tool calls, MCP tool lists and stored permissions are read in both
  forms such records take in JSON: as objects, and as arrays of their
  fields in order.
- `app/`: the program around it: command-line parsing, files, HTTP,
  child processes, the terminal, and the async tasks that carry out the
  actions the library decides on.
- `tests/`: tests of the library on concrete values.
