# chamber_agent

The verified core of Chamber's agent sidecar and of the desktop host that
drives it. The host starts one sidecar per mind, hands it a token, reads its
port, and streams chats through it; the sidecar runs a model agent that may
create or replace *lenses* (sandboxed HTML views) once the user approves.

`src/` is the library, proved with Verus:

- `text` — trimming, prefixes and `u16` reading and writing, as `str` and
  `u16` do them, with the fact that a written port reads back.
- `lens`, `lens_store` — the lens rules (id, name, icon, document) that both
  sides apply, and the layout of a lens in the mind directory.
- `tool_args` — the lens that a tool call's JSON arguments ask for.
- `protocol`, `registry`, `approval` — the messages between host and sidecar,
  and the tool calls that wait for the user's decision.
- `agent_turn` — one agent run as a state machine: each report from the
  outside world yields the run's next action.
- `runtime_server`, `handshake` — admission by token, the start of an
  interaction, the sidecar's command line and its line protocol on
  standard input and output.
- `agent_runtime`, `chat_session`, `sidecar_process`, `smoke` — the host's
  side: chat events, one request per session and its cancellation, waiting
  for a sidecar to start and to stop, and the smoke run's reply.

`app/` holds the programs around it: the gRPC service and the model calls of
the sidecar, the processes and the Tauri commands of the host. They perform
the actions that the library decides.
