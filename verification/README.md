# musicflow_server

A Subsonic-compatible music server library, verified with Verus.

- `src/` is the verified library: the Subsonic response models and their
  XML rendering, the response envelope, request checks (authentication,
  permissions, ratings), the SQL statements the services run and the
  decisions they take (incremental scanning, batching and tallying of a
  library scan, playlist positions and ownership, play queue entries,
  album metadata merging, joining songs with a user's ratings and stars),
  cover art naming, audio tag interpretation, pinyin romanisation and the
  Kugou cover lookup.
- `app/` is the server side around it: database access with sqlx, file,
  image and audio decoding work, the HTTP client and the HTTP responses.
- `tests/` exercises the library.

`enrich_songs` looks each song's rating and star up by scanning the rows
found for the batch, where a server might build a hash map and a hash set:
Verus proves little of hash maps keyed by strings, while the scans are
proved exactly (the last rating row for a song counts, as it would when
collected into a map).
