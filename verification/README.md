# network

A small libp2p node whose decisions are proved against their contracts.

- `src/` is the verified library:
  - `key.rs`: the network key (a secp256k1 secret key held as its bytes, valid
    by type invariant), loading it from the key file or generating it, the
    peer id and the noise configuration derived from it;
  - `address.rs`: multiaddresses, modelled by the encodings of their
    components: stripping a trailing peer id, the listen address, the list of
    addresses to dial;
  - `config.rs`: the configuration defaults, paths, discovery settings and
    connection limits;
  - `gossip.rs`: gossipsub parameters, content-addressed message ids
    (SHA-256), and the building of libp2p's gossipsub configuration and
    behaviour;
  - `node.rs`: the event loop's decision for each event.
- `app/` is the program around it: key file I/O, transport, swarm, the
  network behaviour (a libp2p derive), and the event loop.
- `tests/` runs the library on concrete values.
