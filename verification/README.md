# natbreak

UDP NAT traversal tools, verified with Verus.

- `src/` is the library: the wire format of every datagram (`wire`, `addr`),
  the decisions the NAT type sniffer (`sniffer`), the sniffing server
  (`helper`), the hole punchers (`breaker`) and the reflector (`echo`) take on
  each datagram, and the configuration documents (`config`, `helper_config`,
  `yaml`, `paths`, `websocket`). Each function states what it computes;
  the laws that span functions (round trips, the port sweep, the verdicts the
  sniffer can reach) are proof functions beside them.
- `app/` holds the programs: sockets, threads, timers and files, calling the
  library for every decision. `natbreak sniff|helper|break|break-diff-nat|break-guess|reflect|show-config`.
- `tests/` runs the library on concrete values, and checks the wire format
  against Borsh's.
