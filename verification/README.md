# hc-zwave

Bridges Z-Wave devices into HomeCore via the zwave-js-server WebSocket API.

The crate is split in two:

- `src/` — the library, verified with Verus:
  - `translator` — the alias table that maps `{commandClass}/{endpoint}/{property}[/{propertyKey}]`
    to HomeCore attributes, the value transforms and their inverses, and the write targets of
    writable attributes;
  - `bridge` — what the bridge publishes for each zwave-js-server event, the `node.set_value`
    commands for each HomeCore command, topics and documents;
  - `session` — the WebSocket handshake and event loop as step functions from phase and frame
    to next phase and action;
  - `json` — the JSON values the bridge works on; `types` — the zwave-js-server frames;
  - `config`, `logging`, `paths` — configuration defaults, the log rotation decisions and file
    names, path arithmetic;
  - `text`, `assoc` — decimal text and string-keyed maps.
- `app/` — the program around it: reading the config file, the MQTT and WebSocket connections,
  serde parsing and printing of frames, the rotating log file and tracing setup.
