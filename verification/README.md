# prehnite_core

The core of the Prehnite writing application as a library verified with
Verus.

- `src/` is the verified library: settings keys, values, entries and the
  registry with its load and save logic; the translations (language
  identifiers, Fluent bundles and switching between them); the license
  bundle and the build-time tables of packages and dependencies; the SQL
  statements of the record types; book search results and their
  registration records; the grouping of headline descendants; what the item
  list shows and the steps of opening a book file.
- `tests/` holds the tests of the library.
- `app/` holds what runs around it: paths and environment, the database
  tables through sqlx, the global state of the running application, the
  serialized forms of library types, script values and the build steps.
