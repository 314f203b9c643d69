# backend

The core of a small file-storage web service, verified with Verus.

- `src/` is the library. It holds the service's rules: record identifiers
  (time since 2000 in base 36 plus a random suffix), password digests,
  session tokens and their store keys, the SQL statements that create,
  version, archive, delete and read users, directories, files and the tags
  that bind them, and, for every HTTP route, the decision made at each step
  of its handling (which record to read, who may see it, what to answer).
  Every function carries a contract that Verus proves; `id.rs`,
  `auth/token.rs`, `file_system/file.rs` and `server/fs.rs` also hold
  proved laws (identifiers give back their time, sessions are found by
  their own token only, a login matches the password an account was made
  with, new identifiers route to the right kind of record, versions keep
  what they do not change).
- `app/` is the service around it: settings, PostgreSQL, Redis, the disk
  and the axum routes. It runs the library's statements and commands and
  hands the outcomes back to the library's next step.
- `tests/` exercises the library on concrete values.
