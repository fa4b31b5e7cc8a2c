# apex

The verified core of the APEX middleware runtime, checked with Verus.

`src/` holds the logic, each function with a contract that Verus proves:

- `serializer::header` — the 22-byte wire header; encoding and decoding are
  inverse of each other.
- `udp` — the 16-byte UDP frame header, FNV-1a topic hashes, datagram
  layout and acceptance, multicast group derivation.
- `tcp` — length-prefixed framing of frames on a byte stream.
- `shm` — the shared-memory ring: layout constants, header validation,
  segment naming, and the publisher's and subscribers' decisions (the ring
  is full when the slowest attached subscriber is a lap behind), with a
  model of the ring on which delivery properties are proved: no unread
  message is overwritten, delivery is in order, and a subscriber that
  joins sees only later messages.
- `error`, `identity`, `health`, `qos`, `peer`, `observability` — error
  messages, identifiers, health labels, QoS compatibility, the peer state
  machine, labels, counters, gauges and the bounded metric registry.

`app/` is the unverified shell: segment mapping with `libc`, sockets,
process identity, floating-point histograms and the global registry.
