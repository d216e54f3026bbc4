# rewoven_api

A REST API serving sustainability ratings of fashion brands, with its
rules written in Verus and proved.

- `src/` is the verified library: letter grades and the editorial
  rationale (`models`), Levenshtein distance and the fuzzy name search
  (`search`), the CSV and JSON exports (`export`, `json`), pagination and
  query limits (`paging`), the statements built per request (`sql`),
  comparison and alternatives rules (`brands`), barcode prefixes and the
  crowdsourcing steps (`barcode`, `barcode_seeds`), error answers
  (`error`), rate-limit keys and entity tags (`middleware`), material
  ordering and lookup (`materials`), and the text helpers they share
  (`text`).
- `tests/` exercises the library on concrete values.
- `app/` is the server: HTTP routing (axum), SQLite access (rusqlite with
  an r2d2 pool), rate limiting (governor), serde types and the statistics,
  whose averages are floating point.

Run the server with `brands.json` (a JSON array of brand records) next to
it to seed an empty database.
