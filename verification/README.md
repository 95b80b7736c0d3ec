# portfolio

The verified core of a small portfolio web site for an artist: projects with
pictures, exhibitions by year, and an admin area behind a password.

- `src/` is the library, verified with Verus: filename sanitizing and
  collision-free naming (`paths`, `text`), server settings (`config`), the
  decoding of database rows into records (`sql`, `queries`), the project form
  (`form`), picture lists (`pictures`, `json`), the grouping of exhibitions by
  year (`group`), login (`auth`), errors and the HTTP answers they get
  (`error`), and properties across these (`laws`).
- `app/` is the web server around it (actix-web, SQLite, Tera templates):
  routes, database access, file writes and the environment.
- `tests/` runs the library on concrete values.
