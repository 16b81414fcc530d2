# ownserver

Exposes a local TCP or UDP server to the Internet. A client behind a firewall connects to a server,
claims endpoints, and has the traffic of remote peers carried to its local ports.

The library under `src/` is written in Verus: its functions have contracts, and Verus proves that
the code meets them. What the outside crates do that the library calls is stated in declarations
that Verus trusts; each says which function it speaks of. `app/` is the network code around it.

## Layout

- `src/protocol.rs`, `src/id.rs`, `src/clock.rs`, `src/ws.rs`: what travels between client and server.
- `src/port_allocator.rs`, `src/registry.rs`: the ports of a server, and its tables.
- `src/reconnect.rs`: the tokens with which a client takes its place again.
- `src/server/`: the server: its handshake, its clients, and the streams of remote peers.
- `src/client/`: the client: its handshake, its life, and the streams to local services.
- `src/tunnel/`: tunnels with one port for each client.
- `src/testing/`, `src/prototype.rs`: what tests of the programs need, and a bare handshake.
- `src/laws.rs`, `src/tunnel/laws.rs`: what holds across server and client together.
- `app/`: the programs.

The loops of the programs are state machines in `src/`: a function takes an event and returns what
is to be done next. `app/` does it, and reports what came of it.

## Usage

```
ownserver client --endpoint 25565/tcp
ownserver server --host shard.example --remote-port-start 10000 --remote-port-end 20000
ownserver tunnel-client --local-port 3000 --payload udp
ownserver tunnel-server --host shard.example --remote-port-start 10000 --remote-port-end 20000
```
