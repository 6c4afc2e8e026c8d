# acp_client

A client of agents that speak the [Agent Client Protocol](https://agentclientprotocol.com),
written in Verus. The library decides; the program around it reads, writes and waits.

- `src/` is the library. Every function in it carries a contract that Verus proves.
- `app/` connects the library to the protocol crate, to sockets, processes and timers.
- `tests/` runs the library on concrete values.

## Layout of the library

| Module | What it is about |
| --- | --- |
| `connection` | establishing a session, watching an adopted turn, the end of a connection |
| `prompt` | one turn while its prompt is running |
| `command_loop` | a session between its turns, and clearing its conversation |
| `session` | an established session, its owner's requests and the actions they lead to |
| `notifications` | what a connection knows, and how an agent's updates change it |
| `update_events` | the events that an update becomes, and dropping restated text |
| `lifecycle` | what updates say about a turn, and who publishes its end |
| `raw_input` | wakeups and background work in the frames of tool calls |
| `control` | the control channel to a runner |
| `handshake` | the opening request and the wait for its answer |
| `config_options` | options and modes of a session |
| `steer` | messages for a running turn |
| `grok_ask` | questions of an agent to the user |
| `session_sandbox` | the container of a session and its command line |
| `transcript_filter`, `agent_profiles`, `errors`, `event`, `wire` | vocabulary |
| `json`, `text`, `text_map`, `time`, `model` | values |

## Models

A type `X` that holds texts or lists has a ghost mirror `XV`, its deep view, over
`Seq`, `Map` and plain values. Contracts speak of deep views. Functions that change
several values at once are specified by one spec function that gives the new values
and what is to be done. Proof functions whose names start with `law_` state what holds
of all inputs, of several calls, or of whole runs.

What the library has from outside, and takes on trust, is marked with
`#[verifier::external_body]` or `assume_specification`, each with a note of what is
claimed.
