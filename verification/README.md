# rig_your_goal

The core of RigYourGoal, a desktop assistant that takes a user's goal
through a workflow of agents: a summarizer talks the goal into a
structured summary, a builder plans and dispatches the work to a
generator, an executor checks the result, and an optimizer refines it.

The library is written in Verus. Its own functions are verified against
their contracts; the calls it makes into `serde_json`, `uuid`,
`tokio-util` and a few std methods go through small trusted wrappers,
each of which states in its doc comment what is assumed of the call.

## Layout

- `src/` — the verified library.
  - `reducer.rs`: turns the chunks of a streamed model reply into
    content-block events and the fully assembled final message; its laws
    state the block life cycle (indexes 0, 1, 2, ..., each block stopped
    before the next, one complete message, last) over any run of chunks,
    and that the message holds all the streamed text, reasoning and tool
    calls (those streamed in pieces assembled from their pieces).
  - `agents.rs`: agent outputs and statuses, which agent a goal status
    calls for, and the supervisor's task table (one active agent per
    workspace).
  - `builder.rs`, `optimizer.rs`, `executor.rs`, `summarizer.rs`: the
    agents' decisions — prompts, plan and to-do parsing, polling steps,
    verification, conclusions and outputs.
  - `handlers.rs`, `runtime.rs`: result handlers, their registry, and the
    plans of database writes for an agent's output.
  - `mock.rs`, `generator.rs`, `frame.rs`, `gateway.rs`: the generator
    protocol, the mock generator, gateway frames and replies.
  - `models.rs`, `workhub.rs`, `config.rs`, `events.rs`, `error.rs`,
    `llm.rs`, `commands.rs`: records, text forms, settings, event
    channels, errors, chat messages and command answers.
  - `json.rs`, `text.rs`: the JSON values the library reads and builds
    (through `serde_json`), and string helpers.
- `tests/` — tests of the library on concrete values.
- `app/` — the application around the library: settings file, SQLite
  database, gateway WebSocket client, model client interface, the agents'
  run loops and the commands the front end calls.
