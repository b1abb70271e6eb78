# nodevia_agent

A device agent that connects to a relay over WebSocket, registers the device,
keeps the connection alive with pings, and tunnels TCP traffic (for example
SSH) through the relay.

- `src/` is the verified library: command-line model (`cli`), configuration
  resolution (`config`), relay URL validation and reconnect backoff
  (`transport`), the message type (`message`), the heartbeat session
  (`heartbeat`), the tunnel pump (`tunnel`) and the text of the `config` and
  `status` subcommands (`cmd`).
- `app/` is the program around it: argument parsing, config files, JSON,
  logging, sockets and timers. It feeds what happens to the library's state
  machines and performs the actions they return.
- `tests/` exercises the library on concrete values.
