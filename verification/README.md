# abylab_tui

The logic of a terminal interface to a coding agent, as a verified library: the
composer and its keymap, the prompt queue, pickers and dialogs, the transcript,
mentions of files, staged images, the credentials document, the data wipe plan,
and the translation between the interface and the agent's driver.

- `src/` is the library. Each type has a mathematical view, and each operation's
  contract says what it makes of that view. The application as a whole is the
  view `Scene` in `src/app/`: every event has a spec function from scene to
  scene. Laws that span several operations are public proof functions.
- `tests/` runs the library on concrete values.
- `app/` is the host: terminal events, the clipboard, files, the directory
  browser and the driver's threads. It performs the effects that the library
  leaves in `App::ctl` and reports back how they went.

The library leans on `ratatui-textarea` for the text widget of the composer
(`src/input/area.rs`), and on `unicode-width` and `unicode-segmentation` for
cells and graphemes (`src/input/layout.rs`). What is taken from them without
proof stands in the contracts there.
