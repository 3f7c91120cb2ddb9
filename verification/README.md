# admin

Admin tooling for the gsvr game server, as a verified library.

`src/` holds the logic, each function with a contract that Verus proves:

- `msgid`, `msg`: the message kinds and the messages of the client protocol.
- `varint`, `wire`, `frame`, `codec`, `legacy_codec`: the protobuf wire format
  of the messages, the length-prefixed frames, and the decoders and encoders of
  the gateway connection (decoding gives back what was encoded).
- `line_decoder`, `text`, `num`, `json`: lines of bytes, strings, decimal
  numbers, and JSON values as the console reads them.
- `cmd`, `hint`: the command language of the game and platform consoles and
  their completions.
- `gclient`, `console`, `fast_login`, `pf`, `bench`, `client_mgr`: the
  decisions of the clients (login handshakes, request routing, histories, the
  platform's replies, the benchmark and its counters).
- `gate_agent`, `desktop_agent`, `agent_mgr`: the agents of the desktop
  tools, with their bounded histories, and the manager that keeps them by
  user name and player id.
- `cli`, `legacy_cli`, `misc`: command lines and shared plain types.

`app/` is the program around it: argument parsing, sockets, HTTP, prompts and
the runtime. `tests/` runs the library on concrete values.
