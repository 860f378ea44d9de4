# agentloop

A research-agent service and a social-media assistant, with their logic
verified by Verus.

- `src/` is the verified library: the session table and every operation on
  it, prompt building, history compaction, the termination rules, the
  research loop as a state machine (one step from state and event to next
  state and action), tool-call records, and the social-media agent (request
  analysis, replies, per-session memory held in a `DashMap`). Calls into
  `uuid`, `chrono`, `dashmap` and `str::to_lowercase` go through small
  trusted wrappers whose contracts are stated next to them.
- `app/` is the service around it: actix-web handlers, the WebSocket
  endpoint, the driver that performs the loop's actions (store updates,
  model calls, tool calls, broadcasts), and the JSON forms of the types.
- `tests/` exercises the library on concrete values.
