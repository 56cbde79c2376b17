# orkestra_core

The core of Orkestra's workflow engine as a verified library: the domain
model of tasks, iterations, stage sessions and questions; the workflow
configuration with its flows and its validation; the in-memory store; the
parsers for `git diff` output, pull request URLs, frontmatter, check-script
metadata and the JSON a pull request poll reads; the search for an agent's
structured output; and some of the steps taken while agents work: starting
an agent, parking plain-text output, failing an execution, ending a stage
that the agent reports failed or blocked, routing a
finished execution to its workflow call and event, formatting subtasks,
classifying assistant runs, accepting a task-scoped assistant message and
choosing where its agent runs, and acting on pull request feedback. The stage
handlers that go through the iteration service (approvals, artifacts, gates,
scripts, retries) are not here.

Every function in `src/` carries a contract that Verus proves. Where the
library calls another crate (`indexmap`, `chrono`, `serde_json`,
`strip-ansi-escapes`) or a std function that
Verus has no specification for, the call sits in a small wrapper whose
contract says what the crate documents.

- `src/workflow/` — domain types, configuration, adapters and interactions.
- `src/testutil/` — fixtures, a mock store and a mock process spawner.
- `src/text.rs` — text helpers with their specifications.
- `src/utility/` — utility-task errors and runner settings; JSON values.
- `tests/` — tests run against the compiled library.
- `app/` — the I/O around the library: reading YAML files, running `git`
  and `gh`, keeping pending outputs on disk.
