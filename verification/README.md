# IPMX slide deck

A Game Boy Advance presentation about IPMX, split in two.

- `src/` is the library. It says what every slide shows (window, texts,
  fonts, sprites, motion), in which order the slides run, how the NMOS
  bridge block in shared work RAM is read and written, the step-by-step
  run of the deck (a slide is cleared, and the next one chosen, only after
  A ends its transition), and the per-frame decisions of the closing
  transition, of the envelope flight (which asks
  the host to connect when the envelope lands) and of the live NMOS slide.
  Each function carries its contract; the laws of the deck (order, slide run,
  layout on screen, bridge field independence, envelope flight, live labels) are
  proof functions beside the code they speak of.
- `app/` is the game side: engine callbacks, the presentation task, and
  the drawing of what the library decides, through the engine bindings.
- `tests/` runs the library on concrete values.
