# loon

The library of Loon, a self-hosted movie server for LG webOS with a desktop
admin tool, written in Verus: every function in `src/` carries a contract
that Verus proves.

- `src/api.rs`: what the HTTP API answers: request parameters, pagination,
  search, favorites, watch progress, library status, artwork, errors.
- `src/db.rs`: list queries, the SQL statements the catalogue uses, and how
  stored rows read back (genres, runtimes, flags, progress).
- `src/config.rs`: server, cache, logging and desktop settings.
- `src/admin.rs`: the admin tool's state: search filter, table order, panels.
- `src/player.rs`: stream URLs and external player arguments.
- `src/theme.rs`: colour tokens read as RGB(A) channels.
- `src/time.rs`: Unix times as ISO-8601 UTC date-times (Gregorian calendar).
- `src/models.rs`: request and response bodies.
- `src/text.rs`, `src/number.rs`: text and decimal helpers with their specs.

Laws that span several functions are public proof functions named `law_*`.

`app/` holds what runs around the library: the HTTP server, SQLite storage,
the egui admin window and the player launch.
