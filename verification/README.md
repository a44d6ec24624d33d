# furtherance

The task store of the Furtherance time tracker, with its decisions verified
in Verus.

- `src/` — the verified library:
  - `sort` — how task listings are ordered (`SortBy`, `SortOrder`) and the SQL
    words for them;
  - `queries` — the statement texts and parameters of the task listings and
    of the search by name and tags, with proofs that each statement has as
    many placeholders as it is given parameters;
  - `group` — the fields that an edit of a group of tasks writes;
  - `schema` — whether an inspected database has the task table layout of
    the current or of the first version;
  - `text` — trimming and decimal writing of integers, used by the above.
- `app/` — the SQLite store itself (rusqlite) and the earnings-per-day
  numbers of the chart (floating point).
- `tests/` — tests of the library on concrete values.
