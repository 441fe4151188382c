# chatpeer

A peer-to-peer chat daemon with end-to-end encryption, split into a verified
library (`src/`) and the daemon around it (`app/`).

- `src/crypto.rs` — the encryption key pair, X25519 + XSalsa20-Poly1305 boxes
  (through `crypto_box`), framed as nonce followed by the sealed box; decryption
  of a frame sealed for this key pair gives back the plaintext.
- `src/state.rs` — the daemon's decisions: what a command publishes or sends,
  which presence announcements are recorded, which peers go offline when
  their last connection closes (keeping their keys), which incoming messages are accepted (only
  under the key the sender announced) and under which message id.
- `src/peers.rs` — the table of known peers, viewed as a map from peer id to
  public key, username, last announced status and whether it is online.
- `src/identity.rs` — the libp2p keypair file and the peer id it gives.
- `src/ids.rs` — message ids `msg_<n>`; different counters give different ids.
- `src/config.rs`, `src/db.rs`, `src/protocol.rs` — configuration defaults and
  paths, stored-message rows and the D-Bus reply format, wire types.
- `app/` — the libp2p swarm, the D-Bus interface, the SQLite store, key and
  configuration files, and the JSON encoding of the wire types.
