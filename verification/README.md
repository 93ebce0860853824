# radi

A terminal podcast recorder: it records the default input device, removes
noise, encodes MP3 and uploads finished takes to LISTEN as draft episodes.

- `src/` is the verified library (Verus): the key-press state machine and
  upload resolution (`app`), the Recent-panel ordering and row text
  (`scan`, `size`), configuration decisions (`config`), local-time stamps formatted by chrono from
  a clock reading and UTC offset handed in by the program (`clock`), LISTEN request
  variables and reply interpretation, sidecar metadata, the episode search
  and the rehydrate pass (`upload`), and the text, tints, hints and geometry of the screen
  (`tui`).
- `app/` is the program around it: audio capture, denoising and encoding,
  threads, HTTP, the filesystem and drawing with ratatui.
- `tests/` exercises the library.
