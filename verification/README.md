# parallels_clipboard_fix

A Windows tray utility that repairs image data on the clipboard so that the
Parallels Desktop shared clipboard can hand it to macOS.

- `src/` is the verified library: the settings text (`config`, with the proof
  that reading the written settings gives them back in `config_laws`), the
  checks and the rewrite plan for clipboard images (`clipboard`), the log
  levels and log lines (`logger`), the tray menu and the decisions of the tray
  and watcher windows (`tray`, `watcher`), the retry timers, the main loop's
  decisions (`events`), UTF-16 text (`wide`) and the startup shortcut's path
  and COM results (`startup`). `text` holds the character-level operations and
  their specifications; `platform` the standard library items that the library
  calls without looking into them.
- `app/` is the program: the Win32 windows, clipboard and COM calls, the
  settings and log files, the environment, threads and the main loop.
- `tests/` runs the library on concrete values.
