# imk

A Windows input-method manager: it watches which window comes to the front,
looks the owning program up in a configuration file, and switches the input
method between English and Chinese; it also turns Caps Lock into an input-method
switch (tap) or a Caps Lock (hold), and keeps a tray icon with a small menu.

Layout:

- `src/` — the library, with its proofs: the configuration model, the mode
  decision, the keyboard-hook state machine, the foreground-window confirmation
  state machine, the input-method retry loop and conversion-mode bits, the TSF
  switch flow, and the tray menu, command and autostart logic, each with its
  contract and the laws that hold across calls.
- `app/` — the Windows program around it: Win32 calls, threads, the JSON file
  (serde), and the message loops, which hand plain values to the library and
  carry out what it decides.
- `tests/` — tests of the library on concrete values.
