# hermes_dms

The logic of a desktop bridge for a Hermes agent, verified with Verus, and the
program around it.

The desktop talks to Hermes over three interfaces that share one process: an MCP
server, by which Hermes calls desktop tools (notify, launch an application, take
a screenshot); a `/gateway` WebSocket, by which a platform adapter carries panel
chats to Hermes and back; and a Unix-socket IPC server for the local panels and
for `hermes-dms-ctl`.

## Layout

`src/` is the library. It decides; it does no I/O. Each module states what its
functions return in `ensures` clauses over mathematical views, and ends with the
laws that hold across functions, as public proof functions.

| Module | What it decides |
|--------|-----------------|
| `config` | which settings win, file or environment, and what is missing |
| `bridge` | where a frame of the adapter goes, and what the end of a connection means for waiting chats |
| `daemon` | what to do about a request, how a chat turn proceeds, what to answer |
| `ipc` | what a line on a connection means, what is written back, what can be cancelled |
| `ctl` | what the command-line client prints |
| `hermes` | requests to Hermes, its errors, its chat events, chat ids |
| `ollama` | the model list, merged from catalog and loaded models |
| `mcp` | who may talk to the server, and the desktop tools |
| `desktop` | notification calls, the course of a screenshot, when a PNG is all there |
| `text`, `json`, `http`, `paths`, `ids` | shared ground |

`app/` is the program: sockets, D-Bus, the compositor, HTTP, files and the JSON
forms of the messages. `tests/` runs the library with the outside crates linked.

## What is trusted

A few calls into outside crates stand behind functions whose contracts are taken
on trust; each says so in its doc comment:

- `serde_json`: reading an object and writing one (`json`);
- `uuid`: random bytes and the hyphenated notation (`ids`);
- `base64`: the standard encoding (`mcp::tools`);
- the standard library: string equality, appending a character, white space,
  lossy UTF-8, `Debug` of a string, and the system clock (`text`, `config`,
  `hermes::session`).
