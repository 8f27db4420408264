# oficialia_dsa

Document management core for official correspondence (*oficios*): scanning, OCR,
AI-assisted metadata extraction with Gemini under a zero-retention policy, and local
storage.

- `src/` — the verified library. Domain entities and value objects, the document
  repository contract and its in-memory implementation (lookups, newest-first paging,
  case-insensitive title and tag search), the document service, the application commands
  and queries, the decisions of the scanning pipeline (the upload → inference → delete
  protocol with Gemini, file naming, performance limits, error messages), what is written
  to and read from the SQLite database, and the text processing they rely on.
  `src/leyes.rs` states the properties that span several operations.
- `tests/` — tests of the library on concrete values.
- `app/` — the executable around it: HTTP clients, SQLite statements, image and PDF
  files, serializable copies of the models, and the entry point.
