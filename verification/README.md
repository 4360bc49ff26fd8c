# port_proxy

A TCP tunnel: a client behind a firewall exposes one of its local ports on a
public port of a server. An optional shared secret authenticates the client
with an HMAC-SHA-256 challenge-response.

- `src/` is the verified library (Verus): the messages, the authentication
  (`auth`), the client's and the server's transition functions (`client`,
  `server`), properties of the two sides together (`protocol`), and the
  parsing of the `LOCAL:REMOTE` forwarding argument (`forward`). Hashing,
  HMAC, hexadecimal coding and UUID generation are called from their crates
  through a few trusted wrappers (`crypto`, `hexcode`, `message`).
- `app/` is the program around it: command line, sockets, JSON framing, and
  the loops that perform each action the transition functions return.
- `tests/` exercises the library with the real crates linked.
