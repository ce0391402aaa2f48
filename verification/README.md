# sonic_flow

The core of the Sonic Flow music player, written in Verus. Every function in
`src/` carries a contract. The verifier proves each one, except for a few
small functions marked `#[verifier::external_body]` that wrap standard-library
calls (path parts, the order on paths, case folding, the clock, `String::push`, `Debug`
formatting) and symphonia's time-base conversion; their contracts are
trusted.

- `src/` — the library: playlists with shuffle and repeat (`playlist`,
  `shuffle`, `playlist_laws`), the controller's command handling
  (`controller`, `control`), audio formats and decoding checks (`format`,
  `decoding`, `utils`), metadata mapping (`metadata`, `tags`, `numparse`),
  the playback thread's decisions (`player_thread`), the folder scan's
  filter and order (`scan`), shader preparation and the shader engine
  (`compiler`, `engine`, `blending`), visual effects (`effects`, `effects_manager`), performance
  advice (`performance`), and the text, path and time helpers they share.
- `app/` — a command-line program around the library: it reads files and
  tags from disk, probes streams, scans folders, drives a playlist and the
  playback thread from standard input, and does the floating-point work the
  library leaves out.
- `tests/` — tests of the library's public functions.
