//! Node-graph model, MIDI decoding and command bindings of a small
//! Lisp-driven synthesizer.

pub mod audiolib;
pub mod dsp;
pub mod laws;
pub mod lisp_bindings;
pub mod midi;
pub mod syerr;
pub mod toolbox;
