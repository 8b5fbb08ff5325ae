# USAHP daemon

The decision logic of a local switch-event broker, verified with Verus.

- `src/embedded/`: in-process keyboard capture. `capture` is the state machine, `broker` its
  configuration and start, `keys`, `windows` and `macos` the key names and codes, `native` the
  decisions of the native hooks, `laws` and `history` what holds of every edge and of every run.
- `src/service.rs`: the life of the service, from a configuration to start, stop and failure.
- `src/control.rs`: what the desktop utility shows, remembers and does on request.
- `src/management.rs`: the snapshots that the service hands out.
- `src/names.rs`, `src/text.rs`: sets and maps of names, and the text functions they need.
- `app/`: the hosts around the library, with threads, sockets, files and native hooks.
- `tests/`: the library on concrete values.

Aggregating mappings into logical switches is the work of a switch state machine that the host
supplies: capture hands it each edge and takes back the switch that changed.
