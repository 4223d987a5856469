# macttc

The verified core of MacTTC, a macOS menu-bar app that keeps the Tamriel Trade
Centre price table of The Elder Scrolls Online up to date.

`src/` is the library, checked by Verus:

- `config` — the settings, the two accepted download sources, the fixed
  destination folder and interval, loading and validation rules, and the
  changes the menu and the window make to the settings.
- `status` — the download job's status and its steps (start, extract, finish).
- `schedule` — the start-up download decision and the schedule interval.
- `clock` — whether the last success is less than an hour old.
- `localization` — detection of a Chinese primary language and the menu texts.
- `menu` — check marks and texts of the status menu.
- `launch_agent` — the launch-at-login property list, its path, and what the
  setting asks of it.
- `paths`, `text` — path joining and character helpers.

`app/` is the Tauri shell: commands, file and network I/O, the tray and the
scheduler loop. `tests/` exercises the library.
