# kakureyado

Onion service hosting: an in-memory service registry, a local host and a
key-backed host with the lifecycle of each service, v3 `.onion` address
derivation (`base32(pubkey || checksum || 0x03)`, the checksum being the
first two bytes of `SHA3-256(".onion checksum" || pubkey || 0x03)`), and
vanity address search.

- `src/` is the library, verified with Verus. Each operation states its
  result over a mathematical view (a map from service name to service), and
  the laws that relate operations are proof functions beside them.
- `app/` is the command-line program: argument parsing, printing, the
  parallel vanity search, time estimates, the asynchronous interfaces and the
  SQLite registry.
- `tests/` runs the library on concrete values.
