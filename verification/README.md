# cam_toolkit

A verified library for a camera tool: SOME/IP messages and payloads, RTP
packets and the reassembly of H.264, H.265 and MJPEG frames, the StonKam AVTP
video format, media decoding (MJPEG through the `image` crate, G.711 A-law
and μ-law audio into 16-bit PCM frames),
serial-port settings and framing, TCP message settings and rules, the MJPEG
stream parser and render-loop decisions, and the rules on remote paths and
SFTP commands. Every function under `src/` is checked by Verus against its
`requires`/`ensures` contract, except what is marked
`#[verifier::external_body]`: the declarations of outside types, and small
wrappers that each make one call into `std` or an outside crate (`bytes`,
`image`, `serde_json`, `serialport`, `time`) and whose contracts, which state
what that call's documentation or source promises, are trusted rather than
proved. The public proof functions state the laws of
the library (encodings read back, orders kept, paths in normal form).

Layout:

- `src/` — the library, one module per area (`someip`, `rtp`, `stonkam_avtp`,
  `serial`, `tcp`, `render`, `ssh`), with shared helpers for bytes (`wire`,
  `shared_bytes`) and text (`text`).
- `tests/` — tests of the library on concrete values.
- `app/` — the I/O around it: serial ports, TCP sockets with JSON messages,
  the payloads that carry floating-point or free-form JSON values, and the
  local side of remote files.
