# rstop

A Windows tray tool that keeps one chosen program at hand: pressing one of the
hotkeys (1–4 on the main row or the numeric pad, numeric-pad plus and minus)
brings that program's window to the front, or starts the program when it is
not running. The tray icon pauses and resumes the hotkeys and can forget the
chosen program so that the next start asks again. The choice is kept in the
registry under `HKEY_CURRENT_USER\Software\RsTop`.

Layout:

- `src/` — the library `rstop`, verified with Verus: hotkey and hook
  decisions (`keyboard`), text handling (`text`), the program list
  (`program`), window and process lookup (`windows`, `top`), the tray's state
  machine (`tray`) and the reactions to registry failures (`registry`).
- `app/` — the Windows program around it: the keyboard hook, window
  enumeration, registry access, the selection prompt and the tray event loop.
  It reads the tray icons from `assets/icon1.ico` and `assets/icon2.ico`.
- `tests/` — tests of the library.
