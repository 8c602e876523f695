# randonautics

A verified library behind a "randonautics" coordinate generator, and
the program around it.

- `src/` — the verified library:
  - `cpu_entropy` — RDRAND/RDSEED queries with bounded retries;
  - `shake` — the SHAKE256 sponge of `tiny_keccak`, modelled as an absorbed
    message and a position in its output stream;
  - `entropy`, `entropy_v2` — random bytes and a seeded byte-stream generator
    mixing operating-system and CPU entropy through SHAKE256;
  - `vault`, `intent` — Argon2id master keys and intent keys;
  - `geo` — the integer plan of a point cloud (seeds, anomaly centres, moves);
  - `open_randonaut` — session settings, the anomaly grid, kernel window and
    duplicate suppression;
  - `stats` — byte histograms for the entropy tests.
- `app/` — the HTTP server (axum), the spherical geometry and density
  estimate on floating point, the benchmark and the entropy tester.
- `tests/` — statistical tests of the generated bytes and tests of the
  library's contracts on concrete values.
