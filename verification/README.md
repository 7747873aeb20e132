# wingbird_patch

The decision logic of a runtime patcher for a Flutter application's
`libapp.so`, verified with Verus.

- `src/` — the verified library: BLAKE3 digests and their hex text
  (`digest`, `hex`), the version file format (`decimal`, `version`), Unix
  path text and the on-disk layout (`paths`, `layout`), the server's URLs and
  status codes (`api`), applying a bsdiff patch in memory (`patching`), and
  the patch manager as a state machine (`manager`, `machine`), a model of
  the files a run works on (`world`), and the properties proved of every
  run (`laws`).
- `app/` — the I/O around it: reading and writing files, HTTP with
  `reqwest`, JSON with `serde`, and the loop that performs the actions the
  state machine asks for.
- `tests/` — tests of the library, among them whole runs of the state
  machine against a simulated file system and server.
