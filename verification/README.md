# mdns_scanner

A small mDNS network scanner: it browses the local network for a fixed set of
DNS-SD service types, keeps what it discovers in a SQLite table, and reports the
services whose name contains `poco`.

- `src/` is the verified library (Verus):
  - `service_detect.rs`: the service types, their names, parsing and the laws
    on names (distinct, round trip);
  - `service.rs`: the record of a discovered service, its text and table row;
  - `clock.rs`: the discovery time stamps (`%H:%M`, `%Y-%b-%d`) through chrono;
  - `scan.rs`: the scan plan, the decision after each poll, and the selection
    of the services to report;
  - `text.rs`: string equality, substring search, decimal numerals.
- `app/` is the program around it: mDNS browsing (zeroconf), SQLite (rusqlite),
  logging (tracing).
- `tests/` runs the library on concrete values.
