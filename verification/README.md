# vpn

A SOCKS5 proxy that carries its clients' connections through encrypted tunnels to a
server, which connects to the destinations on their behalf.

The library under `src/` is verified with Verus. It holds everything that decides:

- `socks5/`: the SOCKS5 wire formats (RFC 1928, RFC 1929) and the server side of the
  handshake, as functions from the bytes received to the reply and the outcome;
  UDP request headers; the replies and relay decisions of a connection.
- `util/target_addr.rs`: addresses and their wire form, with round-trip and
  prefix-stability proofs.
- `network/frame.rs`: length-prefixed frames with gzip compression of large payloads.
- `crypto/`: ChaCha20-Poly1305 or no encryption behind one trait, and key passwords.
- `service/`: the message streams of a tunnel, the routing of every message on the
  client and the server, their port maps, and the proofs that messages cross the tunnel
  unchanged.
- `tunnel/`: a table of ports that live until both halves are dropped.

`app/` runs it all: the command line, the sockets, the tasks and their loops.
