# gestro

Gestro is a system-wide mouse gesture tool: hold the right mouse button, drag in one of
eight directions and release to fire the keyboard shortcut bound to that direction. A
right-click without a drag, or a drag shorter than the threshold, is replayed as a normal
right-click.

Layout:

- `src/` is the verified library (Verus). It holds the decisions: directions and their
  labels, the direction-to-shortcut bindings, the gesture tracker state machine, the
  handling of grabbed input events, key-name tables for the keyboard simulator and for
  macOS key codes, the keystroke plan of a shortcut, and the tray application's small
  decisions.
- `app/` is the tray application around it: the input grab (rdev), keyboard simulation
  (enigo, Core Graphics on macOS), the settings file (serde, directories), the window and
  tray (tauri), and the floating-point measurement of a stroke (distance and angle).
- `tests/` exercises the library.
