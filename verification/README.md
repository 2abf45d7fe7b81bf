# libp2p-auto-relay

Lets endpoints that cannot reach each other directly communicate through a relay server on top of
libp2p. What the relay, the endpoints and the clients decide is written in Verus, and proved against
its contracts; the channels, substreams and futures of libp2p are driven from the outside.

- `src/` is the verified library.
  - `address`, `ids`, `error`, `message`, `swarm`, `table`: the values that the parts exchange, as
    plain data.
  - `connection`: a connection whose first bytes were read ahead of time.
  - `endpoint`: the behaviour, connection handler and exchanges of an endpoint, which may use
    several relays.
  - `client`: the behaviour, connection handler, exchanges and transport of a client of one relay.
  - `relay`, `server`: the behaviour of a relay server, and what it does on each connection.
  - `combine`: two transports as one.
  - `laws`, and a module of that name in `endpoint`, `client` and `relay`: what holds over several
    steps, and between the two ends of an exchange. `endpoint::poll` follows a poll from its first
    step to its last.
- `app/` implements the traits of libp2p with the library.
- `tests/` runs the library on concrete values.

A poll of a behaviour or of a transport is a sequence of steps. Each step tells the caller what to
do with a channel, and the method for its answer gives the next step, until the poll is done.
