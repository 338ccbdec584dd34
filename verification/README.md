# simplenote

A small portable note book for the desktop. Notes live in `notes.json`
beside the executable (the task format of SimpleTask Desktop), settings in
`settings.json`.

- `src/` is the verified library (Verus):
  - `text`: whitespace, lines and trimming over `Seq<char>`;
  - `stamp`: note identifiers and timestamps (`uuid`, `chrono`);
  - `model`: the note, its title and its laws;
  - `settings`: theme labels and the font catalog;
  - `storage`: file names, recovery of a damaged notes file from its
    backup, and the step order of a save, with its laws;
  - `session`: the state behind the main window and every decision it
    takes (new, delete, open, close the editor, reload, outside changes,
    auto-save), with its laws.
- `app/` is the window (egui/eframe), the JSON records (serde) and the
  file I/O; it hands each outcome to the library.
- `tests/` runs the library on concrete cases.
