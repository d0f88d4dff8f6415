# plus_notes

A notes-and-attachments HTTP service whose decisions are verified with Verus.

- `src/` is the verified library: upload validation (size limit, allowed
  file types), where uploads are stored, paging of note listings, error
  classification and HTTP statuses, the reply of every endpoint, and the
  upload / fetch / delete workflows of attachments as step functions that
  say which action to perform next given the outcome of the last one.
- `app/` is the server around it: Postgres queries (sqlx), file-system
  access (tokio), HTTP routing and JSON (axum, serde), OpenAPI
  documentation (utoipa). It performs the actions the library asks for and
  reports their outcomes back.
- `tests/` exercise the library on concrete values.
