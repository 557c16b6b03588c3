# transprot

A small real-time media transport: screen frames are H.264-encoded, cut
into datagrams behind a fixed 17-byte header, and sent over UDP to a peer.

The header reader accepts channel bytes 1 to 3 only, so a `Sync` control
header (channel 4) is always refused. As a result the hole-punching step
never sees a connecting reply: every attempt runs out of rounds and the
peer program keeps asking for another address (`lemma_no_reply_connects`
in `src/udp.rs` proves this).

- `src/` is the verified library (Verus): the header format and its
  parser (`header`), the error type (`error`), test traffic, the
  hole-punching and receiving decisions (`udp`), frame conversion and
  fragmentation (`capture`), and the trusted wrappers around the `bytes`,
  `rand`, `openh264` and `std::time` calls (`buf`, `random`, `clock`,
  `capture::encoder_p`).
- `app/` is the peer program: sockets, channels, timers, the STUN query,
  the encoder thread and the screen-capture handler.
- `tests/` runs the library on concrete values.
