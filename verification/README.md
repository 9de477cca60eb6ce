# file_reader

The logic of a small desktop file reader, verified with Verus.

- `src/` — the verified library: the editor buffer (`code_editor`), the lazily
  loaded directory tree (`explorer`), the flat one-level tree
  (`explorer_backup`), the selectable table (`table`), the reader's state and
  its decisions (`reader`), path-name helpers (`paths`) and text search
  (`text`).
- `app/` — the window: it draws the widgets, reads and writes files, lists
  directories, and hands what it finds to the library.
- `tests/` — tests of the library on concrete values.
