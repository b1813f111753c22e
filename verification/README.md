# rust_autogpt

A team of AI agents that turn a user's request into a web server: a managing
agent states the goal, a solution architect works out the project's scope,
and a backend developer writes the server's code, builds it, fixes it and
lists its routes.

- `src/` is the verified library: the agents' data, the requests they send to
  the language model, the text of those requests, the command line's message
  layout and answer trimming, and the backend developer's work loop as a
  step function from (state, report) to (state, next outside work).
  `src/models/agents/backend_laws.rs` proves the loop's laws.
- `app/` runs the program: terminal I/O, files, `cargo`, the HTTP calls to
  the language model, JSON decoding, and the loops that perform the outside
  work that the library asks for.
