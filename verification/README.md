# TypeBridge

Types arbitrary text into the focused window, one simulated keystroke at a
time, for VNC, Guacamole, KVMs, web terminals and BIOS/IPMI consoles where
clipboard sharing is unavailable.

- `src/` is the verified library (Verus): character-to-keystroke planning,
  the typing job's state machine, the window's state, keysym and keycode
  lookup for the Wayland backends, the libei backend's bookkeeping of
  seats, devices and keymaps, command-line parsing, version comparison
  for the update check, and the UI translations with the first-run choice
  of language from the system locale.
- `app/` is the program around it: the egui window, the worker thread, the
  keyboard backends (enigo, the RemoteDesktop portal, libei, the wlroots
  virtual keyboard), the clipboard, settings files and the update request.
- `tests/` exercise the library.
