# tfserver

A binary request/response framework over TCP (optionally with TLS) and WebSockets, whose
core is verified with Verus.

## Layout

- `src/` — the verified library:
  - `wire.rs`: the byte images of the primitive fields (bincode, little-endian, fixed-width
    integers) and what reading gives back of what was written;
  - `s_type.rs`: structure types, the framework's own packets, the `WireMessage` trait with
    `to_vec` / `from_slice`, and the laws of the wire format;
  - `server_router.rs`: the routing table (registration, commit, what each header gets);
  - `target_router.rs`, `client.rs`: the client's cache of handler ids and request headers;
  - `connection.rs`: the per-connection decisions of the TCP and WebSocket servers;
  - `data_cipher.rs`: AES encryption of traffic through OpenSSL, keyed by SHA-256;
  - `testing.rs`, `examples.rs`: the structures and handlers of the tests and examples;
  - `util.rs`: sorting and random bytes.
- `app/` — sockets, TLS, codecs, async tasks and threads around the library.
- `tests/` — tests of the library, cross-checked against bincode and OpenSSL.
