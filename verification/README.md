# rust_client

Client library for the Milestone Basilisk gateway and service bus, verified
with Verus.

- `src/` is the verified library: the wire frames and payloads
  (`protocol`, `payload`, `text_map`), the commands and how their replies are
  read (`bus_client`), the state of a bus connection and the routing of
  incoming frames (`bus_session`), connect retries (`connect_retry`), the
  memory metric (`metrics`), the gateway registry payloads and URLs
  (`gateway_api`), and the client configuration (`basilisk_client`).
- `app/` runs the I/O around it: the TCP connection and its background tasks,
  the HTTP calls to the registry, the JSON forms of the wire types, and the
  logging setup.
- `tests/` exercises the library on concrete values.
