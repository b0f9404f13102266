# Blackout

A password manager made of a daemon that keeps the encrypted vault in memory
and a terminal client that talks to it over a local socket.

## Layout

- `src/` is the verified library:
  - `vault.rs`: entries, snapshot records and the vault operations;
  - `storage.rs`, `crypto.rs`: the encrypted container (Argon2id key,
    XChaCha20-Poly1305), checksums and snapshot records;
  - `generator.rs`: random passwords and passphrases;
  - `event.rs`: the length-framed event log;
  - `daemon.rs`, `handle.rs`: the daemon's state, its answer to each request
    and the steps (snapshots, saves, loads) it asks its caller to carry out;
  - `app.rs`, `events.rs`, `state.rs`, `client.rs`: the terminal client's
    state, its answer to each key and the forms it edits;
  - `config.rs`, `ipc.rs`, `text.rs`: settings, the request and answer
    messages, and string helpers.
- `app/` runs the library: the socket server, file access, JSON and CBOR
  encoding, the clipboard and the terminal drawing. The program acts as the
  daemon when run under a name starting with `blackoutd`, and as the client
  otherwise. The passphrase words are read from `eff_wordlist.txt` in the
  wallet directory (`~/.local/share/blackout` on Linux, beside
  `vault.blackout`); put the EFF large word list there (the
  dice-numbered form, `11111<TAB>abacus` per line, or one word per line).
  Without it, passphrase generation answers that the word list is missing
  and the client's auto-fill and regenerate keys do nothing.
- `tests/` exercises the library on concrete values.
