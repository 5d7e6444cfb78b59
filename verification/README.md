# w3b2

A verified library for the W3B2 bridge: a Solana program through which
service providers ("admins") and their users register profiles, deposit and
withdraw funds, pay for commands and exchange messages, together with the
off-chain connector and gateway that follow the program's events.

The library is written in Verus; every function states its behaviour in
`requires`/`ensures` and is proved against it.

- `src/program`: the program's account state, its instruction handlers (with
  the account constraints: the addresses profiles are derived at, creation
  only at a free address, resizing, signer and ownership checks; the lamport
  movements and emitted events), its errors, events and the off-chain session
  protocol carried in command payloads.
- `src/codec.rs`, `src/pubkey.rs`: the byte layout of event records and
  instruction arguments, and 32-byte addresses.
- `src/connector`: decoding events from transaction logs, profile address
  derivation, routing events to listeners, the instructions a client prepares,
  the synchroniser's settings, and what a catch-up round hands on.
- `src/solana_connector`: events marked with their source, the dispatcher,
  the catch-up and live workers' decisions, the stored sync state, and the
  connector's configuration.
- `src/gateway`: the gateway's configuration, the event messages it streams,
  its subscriptions and its transaction requests.
- `src/runtime.rs`, `src/text.rs`, `src/tables.rs`: the calls into
  `anchor_lang`'s Solana primitives (SHA-256, program derived addresses,
  base58), into `base64` and `std` text functions, and into the `dashmap`
  tables that hold the listeners' and streams' channels, each with the
  contract the library relies on.
- `app/`: the gateway executable (command line, configuration file, logging,
  sled storage, and the tokio tasks that run the library's decisions).
- `tests/`: scenario and unit tests of the library.
