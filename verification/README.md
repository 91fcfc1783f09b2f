# keyaura

The verified core of KeyAura, a macOS overlay that shows a programmable
keyboard's layers and key presses.

- `src/` — the library, verified with Verus:
  - `grab` — modifier bits, grab-combo masks and the per-tick decision of
    whether the overlay takes mouse input, with laws over runs of ticks;
  - `config` — the text, list and switch settings, their defaults, their
    sanitising (`Settings::clamp`) and `Settings::apply_preferences`;
  - `legacy` — carrying a former shared setting over to settings a file does
    not name yet (through `serde_json`), and former per-monitor window
    rectangles over to one-monitor arrangements;
  - `export` — numbered names for exported settings files and the retry
    decision of the exporter;
  - `tray` — menu labels (also from event payloads, through `serde_json`),
    menu ids and the debug connection switch;
  - `updater` — the update check as a state machine;
  - `text` — character-level string helpers.
- `tests/` — tests of the library.
- `app/` — the Tauri application around it: JSON files, the floating-point
  settings, the modifier poll, the menu and the update dialogs.
