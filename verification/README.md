# ntz-proto

A hybrid post-quantum VPN: clients and servers agree on session keys with X25519 and ML-KEM-768,
and a manager enrolls them, hands out their configuration and watches over them.

The library is written in Rust and verified with Verus. What each function does is stated in its
contract, over mathematical models of the data; what holds of the system as a whole is stated in
proof functions whose names start with `law_`.

## Layout

- `src/` is the verified library.
  - The tunnel: `primitives` (the cryptographic crates), `crypto_logic` (key derivation, packets,
    the replay window), `tunnel_protocol` (handshake messages), `sessions` and `server` (a
    server's data plane), `client` (a client's), `tunnel_laws` (both together).
  - The network around it: `policy`, `client_network` and `commands` (routes, firewall and address
    translation as lists of commands), `dns`, `tun`.
  - The agents: `status`, `agent_loop`, `agent_state`, `management_client`, and the records that
    they exchange with the manager in `models`.
  - The manager: `store` (what it keeps), `settings`, `pool` (tunnel addresses), `enrollment`,
    `heartbeat`, `security` (alerts), `configs`, `listing`, `admin`, and the portal in `portal`,
    `dashboard`, `presence`, `html` and `assets`.
  - What all of them use: `text`, `text_map`, `decimal`, `hex`, `ipv4`, `bytes`, `sorting`,
    `assoc`, `clock`, `json`.
- `app/` is the program around the library: sockets, threads, the tunnel device, HTTP, SQLite.
- `tests/` runs the library on concrete values.

## What is taken on trust

The contracts of calls into other crates: each is stated once, on a small wrapper with a doc
comment that names the call. They stand in `primitives`, `clock`, `json` and `hex`; three
functions of the standard library are given contracts in `text`, `tunnel_protocol` and
`agent_state`.
