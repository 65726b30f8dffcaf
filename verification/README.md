# Offline chess puzzles

A puzzle trainer for the lichess puzzle database, with its logic verified by Verus.

- `src/` is the verified library: the puzzle session (loading puzzles, judging moves
  against the solution, the opponent's replies, the analysis board), the search of the
  database and of the favorites, the settings, translations, algebraic notation, the
  board's display, the conversation with a UCI engine, and the layout of the PDF export.
  Chess rules come from the `chess` crate, translations from `fluent-bundle`, PDF
  encoding from `lopdf`, shuffling from `rand`, each behind a small trusted wrapper.
- `app/` is a command-line front end: files, the CSV database, the SQLite favorites, the
  engine's process, and writing the PDF document.
- `tests/` runs the library on concrete positions and puzzles.
