# wifi_captive

A WiFi service for Linux devices: it opens an access point with a captive portal, so that
a phone or laptop can choose the network the device should connect to.

The library under `src/` holds the service's decision logic and data model, written in
Verus and verified against its contracts:

- `state_machine` — the program's states, the action each one asks for and the next
  state for each outcome;
- `network_backend` — the network manager backend: the steps of a connection attempt,
  the connection settings it sends and reads back, access point presentation, and the
  iwd variants of these decisions;
- `network_manager` — a client model of the network manager's bus API: stored
  connections, devices, access points, hotspots and the method calls they need;
- `nm` — states, connectivity and security flags of the network manager;
- `http_server`, `portal` — the portal's routes, file service, access point list and
  exit conditions;
- `config`, `settings`, `text`, `sorting`, `utils`, `errors` — configuration, setting
  dictionaries, text helpers, stable sorting and error messages.

The program under `app/` does the I/O: it parses the command line, talks to the
network manager over the system bus, runs the portal's web server and drives the
state machine.
