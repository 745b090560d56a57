# pot

The core logic of the desktop shell of pot, with its proofs.

- `src/shortcut.rs`: the normal form of a shortcut text (`normalize_shortcut`),
  and the parse of a shortcut by the `global-hotkey` crate.
- `src/normal_form.rs`: laws of the normal form (white space around the pieces
  and ASCII case do not matter; each piece is normalized on its own; normalizing twice changes
  nothing for ASCII text).
- `src/registry.rs`: `ShortcutRegistry`, the map from normal forms to action
  names.
- `src/hotkey.rs`: the shortcut actions, the steps of a request to register
  them (stopping at the first failure), the two halves of registering an
  action's shortcut around the system call, and which action a pressed
  shortcut runs.
- `src/tray.rs`: the tray menu in eleven languages, the commands of its
  entries and of a click on the tray icon, and the clipboard monitor switch.
- `src/settings.rs`, `src/updater.rs`: settings with defaults, the update check.
- `app/`: the Tauri glue that performs the system calls, reads and writes the
  configuration and opens the windows.
