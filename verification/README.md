# minimum-viewer

A one-column terminal file viewer with a `:` command palette, a filter, a
shell line, a help screen and a status bar, whose logic is verified with
Verus.

- `src/` is the verified library: the state of the viewer and every change
  of it (`app`, `dispatch`, `keys`, `commands`), the command table and the
  palette (`command`), the listing order (`listing`), paths and settings
  (`path`, `config`), the text of the screen (`status`, `calendar`,
  `view`), quoting and Base64 (`shell`, `base64`), and laws that span
  operations (`laws`).
- `app/` is the terminal front end: it reads the file system and the
  environment, runs child programs, draws with ratatui and reads keys with
  crossterm, handing plain values to the library and doing the outside
  work that a key press hands back.
- `tests/` runs the library on concrete values.
