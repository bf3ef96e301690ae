# codex_scout

A repository scout that puts a question to a GPT model through the Codex app-server, and takes an
answer only if its citations hold and the repository was left as it was.

`src/` is the verified library: it decides, and is told what came of each outside step.

- `scout`: the configuration, the prompt and the arguments of the app-server
- `wire`, `protocol`, `session`, `usage`: the messages to the app-server and what is made of its own
- `conversation`: what holds of every conversation, whatever the server sends
- `run`, `git`: the stages of a run, and how a change to the repository is found
- `home`, `server`, `capture`: the server's private home, its process and its standard error
- `text`, `json`, `codec`: texts, JSON documents, and the boundary to `serde_json`

`app/` performs those steps: processes, files and clocks. `tests/` runs the library on examples.
