# ihnet

`ihnet` carries local TCP and UDP sockets over a peer-to-peer network, and serves a
local web proxy that sends each HTTP request to the node named in its host name.

`src/` is the library, verified with Verus. It decides and does no input or output:

- `wire`: the protocol names that nodes negotiate, and the greeting of a stream
- `session`: the actions that a session asks for, and the events that it is told of
- `tcp`, `udp`: the two ends of a tunnel, as state machines
- `tunnel_laws`: what holds of them over whole runs, and of both ends together
- `headers`, `labels`, `proxy`: where an HTTP request goes, or why it is refused
- `cli`: what each mode offers, serves and listens on
- `identity`: the secret key of a node, and where it comes from
- `node`, `address`, `bytes`: nodes, socket addresses and byte strings

`app/` is the program around it: arguments, sockets, streams and files. It performs the
actions of the sessions with `tokio`, `hyper` and `iroh`.

What the proofs rest on besides Verus: that a header map holds what its iterator visits
and that a header value is text where the `http` crate says so (`headers`), that the
reading of a node id depends on its text alone (`node`), and that a secret key gives back
the bytes that it was made of (`identity`).
