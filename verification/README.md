# nexus

A command line tool through which agents coordinate on a project: they
create, list, take, update and abandon tickets, and leave notes for each
other, all kept in a SQLite database under the project's `.nexus` directory.

## Layout

- `src/` is the library, verified with Verus. It holds the records (tickets,
  notes, their states and output lines), the statements that read and change
  them, and the rules that decide what a command does with the answers it
  gets:
  - `sqlx` builds parameterised statements. A statement is modelled by the
    pieces it is built from; its text and its argument list are renderings of
    those pieces, so the k-th placeholder is `?k` and binds the k-th argument,
    and the first filter clause opens with `WHERE`, later ones with `AND`;
    `sqlx::scan` reads a statement's text back and shows that its
    placeholders come out as `?1`, `?2`, ... in order.
  - `ticket` and `note` hold the records and, in their `cmd` modules, the
    options of each command, the statements it runs and how it judges the
    rows it got back (for instance which tickets could not be taken).
  - `command` holds the commands and decides which agent a command runs as:
    every command but `agent new` needs one.
  - `agent` makes agent identifiers, `cli` output formats and input sources,
    `options` the global options and the database location, `clock` the
    current time, `text` decimal rendering and string helpers.
- `app/` is the program: argument parsing (clap), the database (rusqlite),
  files and standard input, JSON output (serde) and the terminal.
- `tests/` exercises the library on concrete values.
