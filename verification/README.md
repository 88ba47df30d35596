# lemmy_search

The storage side of a search engine for Lemmy posts, written in Verus.

`src/` is the verified library. It decides everything that does not need a
database connection, and states what it decides in contracts:

- `database::schema` — the tables (names, columns, keys, column types, row
  values) and the SQL names of column types;
- `database` — the statements that create a table;
- `database::dbo::crawler` — which rows a page of crawled posts writes (one
  per identity, as a hash set keeps them) and the bulk `INSERT ... ON
  CONFLICT` statements that write them;
- `database::dbo::search` — the full-text search queries for a set of
  filters, their parameters, and the assembly of result rows;
- `database::migrations` — which columns a migration drops and adds;
- `identity` — sets of rows without repeated identities;
- `error` — the engine's errors and `LogError`;
- `sources` — fresh UUIDs and the current time, the only values the library
  takes from the machine.

`app/` runs the statements against PostgreSQL through a connection pool and
serves the user interface; `tests/` exercise the library.
