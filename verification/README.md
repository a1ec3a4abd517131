# af_postgres

Tools around a Postgres database that stores collab updates: connection
settings read from environment variables, the parameters of the SQL
statements, the order of the down migration and the decisions of the
command-line tool.

- `src/` is the library, written in Verus, with contracts on every public
  function: `port` (reading a port number), `text` and `hex` (decimal and
  hexadecimal notation), `entities` (settings of the tool at the workspace
  root), and `postgres` (settings, statements, migrations and commands of the
  database tool).
- `app/` is the program: command-line parsing, environment files, the
  database connection and the migration runner.
- `tests/` runs the library on concrete values.
