# rogger

A minimalist blog, verified with Verus.

- `src/` is the library. `sesser` keeps named tables of generated tokens with
  expiry times (sessions, API keys) over the association list of `assoc`;
  `users` handles the master user and its tokens; `posts` stores posts in
  SQLite; `cache` keeps the newest hundred posts; `dynamic_site` holds the
  editable pages and strings; `site` holds the decisions of the web front end.
  `crypto`, `clock`, `markup`, `text` and `sqlite` hold the calls into `sha2`,
  `hex`, `tokio`, `markdown`, std and `rusqlite`, each with the contract it is
  trusted to meet.
- `app/` is the web server (actix-web): routes, HTML, cookies and the database file.
- `tests/` exercises the library with the real outside crates.
