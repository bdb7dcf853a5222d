# zenth_client

The verified decision logic of the Zenth messenger client, an end-to-end
encrypted chat. The library holds what the client computes and decides: the
X3DH key agreement, the checks and byte layouts of friend requests, pairing
messages and the relay, the backup frame, file-transfer chunking, the
network key, login counters and settings. The network, database and
encryption layers that carry these steps out are not part of it. Where the
client alternates outside work with decisions (choosing the session of a
message being sent, pulling the relay, adopting a paired device's account),
the library gives a step function from a state and an event to the next
state and the action to take.

- `src/` is the library. Every function carries a contract that Verus
  proves; the calls into the cryptographic crates (SHA-2, SHA-3, X25519,
  Dilithium2, ChaCha20-Poly1305, Argon2, base64, the system's random
  generator and clock) sit behind small trusted wrappers in `crypto.rs`,
  `clock.rs`, `text.rs` and `messages.rs`, whose contracts say what those
  crates document.
- `tests/` runs the library against the real crates.
- `app/` is the shell around it: configuration read from the environment,
  the database directory on disk, the serialisable forms of the values
  exchanged with the front end, and the commands that hand the media
  sanitisers to the library.
