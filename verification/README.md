# toguru

A small home-automation service: it keeps track of switches ("toggles"),
commands them through actuators (a simulated switch, or Zigbee switches reached
through an MQTT broker) and reports their state over an HTTP API.

## Layout

- `src/` — the library, verified with Verus. It holds the decisions of the
  service, each with a contract:
  - `lib.rs`: toggle states, their names and their parsing;
  - `id_map.rs`: the map from identifiers to values that the rest keys by. It
    stands where a hash map keyed by strings would: a list of entries whose
    identifiers are kept distinct, with lookups that walk the list, so that
    every lookup and insertion is proved against a map model;
  - `engine.rs`: the state cache of each toggle and how a command on a toggle
    becomes the status reported back;
  - `api/`: the paths, answers and HTTP status codes of the API, and what a
    request becomes;
  - `broker.rs`, `rrch.rs`, `actuators/`: the request broker and its channels;
  - `actuator/`: actuators, and the reading of MQTT messages and the
    bookkeeping of each switch's last state;
  - `daemon/`: the configuration types and their defaults;
  - `server.rs`: what the HTTP front end says about a switch;
  - `outside.rs`: the outside types the library carries and the calls it makes
    into outside crates, with the contracts that are believed of them.
- `app/` — the program around the library: the asynchronous tasks, channels,
  timers, the HTTP server, the MQTT client and the JSON forms of the types.
- `tests/` — tests of the library.
