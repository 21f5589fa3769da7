# rustpture

A Windows tool that pins a captured screen region as an always-on-top image
window. The crate is split in two:

- `src/` — the verified library (Verus): rectangle arithmetic, the repaint
  regions of the selection overlay, the overlay's drag state, the pinned
  window's drag, opacity and placement rules, context-menu command decoding,
  command-line parsing and the start-up decision. Every function carries a
  contract; the laws (exact coverage of repaint regions, the painted border
  matching those regions, idempotent on-screen clamping, monotone opacity,
  single resident instance, unique menu identifiers) are proof functions.
- `app/` — the Win32 program around it: window classes, message loops, GDI
  capture and painting, the clipboard, and the floating-point zoom factor
  and zoomed placement.
- `tests/` — executable tests of the library.
