# canon_3d

The verified core of *3D Canon — Wind & Warfare*, a two-player artillery
game, written in Verus.

- `src/` is the library that Verus checks: room codes, hello frames and
  length-prefixed frames (`net::wire`), the game message codec with its
  round-trip laws (`net::protocol`), the relay's room registry
  (`net::relay`), what a client makes of relay frames (`net::client`), the
  play-mode, seat and menu rules (`net::session`), the turn order
  (`game`), the seeded generator (`terrain`), the WAV container
  (`sound`) and little-endian layouts (`le`).
- `app/` is the Bevy game and the relay server around it: rendering, input,
  physics in floating point, sockets and threads. It calls the library for
  every rule above. `--relay-server[=ADDR]` runs the relay.
- `tests/` runs the library on concrete values.
