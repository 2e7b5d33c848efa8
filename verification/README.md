# Edge agent

An agent for GPU machines. It connects to a matchmaker, agrees on a key with a
client through it, and runs the client's encrypted jobs: it opens the payload,
unpacks it on LUKS storage, runs it in a confined container, seals the result
and uploads it with a receipt that binds the hashes of what went in and what
came out.

- `src/` is the logic, verified with Verus. The exchange, the session, the job
  and the container are functions from what happened to what is to be done next.
- `app/` is the program around it: sockets, HTTP, commands, files.
- `tests/` runs the library on concrete values.

What is trusted stands in `src/primitives.rs`, `src/json.rs` and at the end of
`src/text.rs`: functions of outside crates and of std, each with the contract
that is believed of it.

## Settings

| Variable | Default | Meaning |
|---|---|---|
| `MATCHMAKER_URL` | `http://127.0.0.1:8080` | address of the matchmaker |
| `OWNER` | empty | owner of the node |
| `NODE_ID` | `node-<uuid>`, kept | name of the node |
| `AGENT_RUNTIME` | `docker` | `docker` or `kata` |
| `DOCKER_MEMORY`, `DOCKER_CPUS` | `32g`, `8` | limits of a container |
| `TENXO_CONFIG_DIR` | `$HOME/.config/tenxo`, or `/etc/tenxo` | where `agent.json` is kept |
