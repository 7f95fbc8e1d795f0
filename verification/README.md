# prism

A peer-to-peer IPv4 tunnel over QUIC datagrams. A client and a server pair
once: the server shows a six-digit PIN, the client types it, and the two run
SPAKE2 keyed by the PIN, then exchange their self-signed certificates
authenticated by HMAC under the agreed key. Afterwards each side pins the
other's certificate. Both sides find their public address with STUN, swap it
over a signalling connection, and connect directly.

Layout:

- `src/` is the verified library (Verus). It holds the wire messages and
  their framing, the pairing protocol as two state machines, the PIN, the
  trust decisions and QUIC settings, identity generation and the trust-store
  naming, the client and server sessions as state machines, the TUN device
  configuration and the policy-routing plans.
- `app/` is the `prism` program: the command line, QUIC endpoints, rustls
  verifiers, STUN, the TUN device, netlink, the file system, and the loops
  that drive the library's state machines.
- `tests/` runs the library, including whole pairing runs between the two
  state machines.
