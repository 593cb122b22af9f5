# netwatch-core

The core of NetWatch, a Linux network monitoring daemon that accounts the
traffic of every device on the local network, discovers devices, and keeps
its data on a storage directory that must stay on its expected mount.

- `src/` is the library: traffic counter deltas and what each accounting
  poll records, storage-path validation and mount safety, the readers of
  sysfs, `findmnt`, `ip` and `arp-scan` output, schema migration planning,
  and the daemon's start-up and scan-refresh decisions. Its functions carry
  contracts; the few that call std or `dirs` directly state what those calls
  are taken to do.
- `app/` is the daemon (`netwatchd`): command line, configuration file,
  SQLite database, HTTP/WebSocket API, and the loops that poll counters and
  scan the network. It runs the commands and queries and hands their output
  to the library.
- `tests/` exercises the library on concrete inputs.
