# lrs_synth

A small synthesizer driven from a Lisp prompt and a MIDI keyboard.

- `src/` is the verified library (Verus):
  - `toolbox.rs`: the node tree — labelled oscillators, modulators and the
    output node, the routes between them, and what the audio stream plays;
  - `audiolib.rs`, `dsp/`: the node types and routing;
  - `midi.rs`: decoding of raw MIDI bytes;
  - `lisp_bindings.rs`: the `osc`, `mod` and `route` commands;
  - `syerr.rs`: error types;
  - `laws.rs`: properties that hold across operations.
- `app/` is the program around it: audio output (cpal), MIDI input (midir),
  the Lisp prompt (rust_lisp) and the floating-point sample generation.
- `tests/` runs the library on concrete values.
