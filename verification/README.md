# thanatonaut

The verified core of an offline game-service emulator and its installer.

- `src/` is the library, verified with Verus: the BAP0 stream framing and
  service envelopes, the UDP game-state packets and world snapshots, the
  byte-order, varint and bit-stream codecs, account and inventory state with
  the light calculation, the profile store's list operations and Steam-id
  hashing, the client registry, fireteam sessions and the per-opcode session
  logic, the storage path policy, the installer's decisions (Steam library
  discovery, hook and launcher file plans, text wrapping, the installer
  screen as a state machine), and SHA-256, HMAC and AES-128-GCM through the
  `sha2`, `hmac` and `aes-gcm` crates.
- `tests/` runs the library on concrete values.
- `app/` is the unverified shell: files, sockets, threads, JSON through
  `serde`/`serde_json`, and the terminal screen through `ratatui` and
  `crossterm`. It gathers facts from the system, hands them to the library,
  and carries out what the library decides.
