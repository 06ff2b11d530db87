# ring_host

The host-side logic of the Ring visual-novel engine, verified with Verus:

- `resources`, `normal_form`: logical asset paths (normalisation and its
  normal form), MIME guessing, the resource-source abstraction;
- `zip_source`: assets read from a ZIP archive (through the `zip` crate,
  built to read stored and deflate-compressed entries);
- `protocol`: the `ring-asset` URL protocol (percent decoding, routing, SDK
  injection, mini-game results);
- `saves`, `save_pages`: save-slot paths, the save list and its pages,
  timestamps (through `chrono`) and thumbnails (through `base64`);
- `session`, `control`, `typewriter`, `audio_state`, `snapshots`, `toast`:
  the host's state machines (frontend ownership, screens and playback,
  clicks and waits, the dialogue typewriter, music transitions, rollback
  snapshots, toast messages);
- `command_exec`, `tick`, `keys`: executing the runtime's commands against the
  render state (backgrounds, scene changes, characters, text, choices,
  audio instructions, scene effects) and the host's decisions after a
  runtime tick (history, restart, UI requests, waits), and the keyboard
  shortcuts;
- `screens`, `persistent`, `sprite_groups`, `config`, `launch`,
  `debug_api`, `debug_requests`: declarative screens and their conditions,
  persistent variables, sprite groups, configuration rules, start-up and
  debug-endpoint decisions.

`app/` is the program around the library: file and JSON input/output, the
configuration file, and the parts that compute with floating-point values.
