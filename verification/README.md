# tokimo_media_server_bridge

A Jellyfin-compatible media server bridge, verified with Verus.

- `src/` is the verified library: how Jellyfin requests are authenticated
  and planned, how database rows become Jellyfin items, how items are
  completed (artwork, paths, media sources, genres, cast), how playback is
  described and reported, and the SQL of the movie, series and episode
  listings and of watch-state records. Every public
  function states what it returns in its contract; the laws (`law_*`) state
  what holds across calls.
- `src/outside.rs` holds the calls into `std`, `uuid`, `argon2` and
  `urlencoding` whose contracts the library takes on trust.
- `app/` is the HTTP surface around the library: axum routes and
  extractors, database access through sea-orm (the remaining lookups'
  SQL: latest, next up, by id, by person, item completion), JSON with
  serde, and the
  floating-point values (ratings, frame rates) the library does not hold.
- `tests/` runs the library on concrete values.
