//! Oscillator settings.
//!
//! The scalar type `S` of the frequency and amplitude is left to the user
//! of the library; the audio engine fills it with its sample type.

use vstd::prelude::*;

verus! {

/// The shape of the wave an oscillator produces.
#[derive(Copy, Clone, PartialEq, Eq, Structural, Debug)]
pub enum Waveform {
    Sine,
    Square,
    Saw,
    Triangle,
}

/// The settings of an oscillator node: its label, wave shape, frequency in
/// hertz and amplitude.
#[derive(Clone, Debug)]
pub struct Oscillator<S> {
    pub label: String,
    pub waveform: Waveform,
    pub frequency_hz: S,
    pub amplitude: S,
}

/// The mathematical value of an [`Oscillator`].
pub struct OscillatorView<S> {
    pub label: Seq<char>,
    pub waveform: Waveform,
    pub frequency_hz: S,
    pub amplitude: S,
}

impl<S> View for Oscillator<S> {
    type V = OscillatorView<S>;

    open spec fn view(&self) -> OscillatorView<S> {
        OscillatorView {
            label: self.label@,
            waveform: self.waveform,
            frequency_hz: self.frequency_hz,
            amplitude: self.amplitude,
        }
    }
}

impl<S> Oscillator<S> {
    /// An oscillator with the given label, wave shape, frequency and amplitude.
    pub fn new(label: String, wave: Waveform, freq: S, amp: S) -> (o: Oscillator<S>)
        ensures
            o@ == (OscillatorView { label: label@, waveform: wave, frequency_hz: freq, amplitude: amp }),
    {
        Oscillator { label, waveform: wave, frequency_hz: freq, amplitude: amp }
    }
}

} // verus!
