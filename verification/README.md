# lineark issues, verified

The decisions behind the `issues` and `usage` commands of a command-line
client for the Linear issue tracker, written in Verus with their contracts.

- `src/` is the verified library. `session` holds a command run as a machine:
  it names each request to the tracker, takes the reply, and decides what comes
  next, until the command succeeds or fails. `command`, `protocol`, `model`,
  `errors` hold the data; `rows`, `lookup`, `text` the transformations of what
  the tracker returns; `usage` the command reference; `laws` the properties
  that span several steps.
- `app/` is ordinary Rust around it: the clap command line, the serde wire
  types, printing, and the loop that performs the requests.
- `tests/` runs the library on concrete commands and replies.
