# koco

A small remote control for Kodi media centres, split into a verified library
and a thin window program.

- `src/` — the library, verified with Verus:
  - `decimal`: decimal text of integers and the parsing of port numbers;
  - `instance`: Kodi instances and the settings form (load, edit, add);
  - `theme`, `config`: colour themes, the stored configuration and the
    choice of the theme in use;
  - `json`: JSON values as Kodi's messages hold them, their parsing and
    the quoting of text inside JSON;
  - `rpc`: the JSON-RPC requests sent over HTTP and the WebSocket;
  - `session`: what each WebSocket message does to the now-playing
    information and which requests it calls for;
  - `remote`: the window's state and the settings actions.
- `app/` — the egui window, HTTP and WebSocket I/O, the configuration file,
  and the elapsed-time arithmetic (floating point).
- `tests/` — tests of the library on concrete values.
