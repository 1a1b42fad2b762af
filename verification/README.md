# tomex

A personal book tracker: books, editions, authors, reviews, reading
progress and the small catalogues around them (genres, moods, paces,
languages, publishers, bindings, formats), kept in SQLite and driven from
the command line or an interactive prompt.

The crate is written in Verus. `src/` is the verified library:

- record models and their database encodings (`records`, `ids`, `text`,
  `timestamp`, `progress`, `isbn`, `price`), with round-trip laws;
- validation of what the user types (`validate`, `forms`);
- the links between records and the plan that brings them up to date
  (`junction`), backup restore planning (`backup`) and the reading export
  (`export`);
- the built-in catalogues (`catalog`), sorting (`sort`, `listing`);
- the command tree, completions and command resolution (`commands`,
  `queries`, `prompt`);
- Open Library requests and answers (`openlibrary`, `openlib_schema`);
- styled terminal output (`config`, `render`, `display`).

Calls into outside crates (`uuid`, `chrono`, `chrono-humanize`,
`dateparser`, `crossterm`, `shlex`, `isbn2`, `liquidity_check`) stand behind
small trusted wrappers whose contracts say what each crate documents.

`app/` is the program around the library: the database, prompts, the
interactive shell, the HTTP listener, configuration files and JSON/CSV
output. `tests/` runs the library on concrete values.
