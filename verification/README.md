# pulsar

Pulsar sets up and runs OpenVPN-over-Cloak connections: it imports
profiles (from AmneziaVPN backups or from separate OpenVPN and Cloak
configuration files), stores them under `~/.config/pulsar/profiles/`, and
runs `ck-client` and `openvpn` in the right order.

The library in `src/` holds the logic, proved with Verus:

- `profile`: the profile model, name and configuration validation, the store
  layout and its rules, ordering profiles by name;
- `import`: the AmneziaVPN import (a state machine that asks for each JSON
  document it needs decoded), the manual import, and the `remote` directive
  of OpenVPN configurations;
- `connector`: connection status and the OpenVPN-over-Cloak connector, a
  state machine that decides each step of a connection;
- `process`: the process supervisor (shutdown order) and exit reports;
- `platform`: supported platforms and the bundled binaries;
- `paths`, `text`, `report`, `logging`, `cli`: paths, strings, output.

The program in `app/` reads and writes files, decodes JSON with serde, parses
the command line with clap, and runs processes and sockets with Tokio,
handing plain values to the library and back.
