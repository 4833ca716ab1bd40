//! Error types of the synthesizer.

use vstd::prelude::*;

verus! {

/// Error raised while building or running the synthesis graph.
#[derive(Debug)]
pub struct SynthError {
    message: String,
}

impl View for SynthError {
    type V = Seq<char>;

    closed spec fn view(&self) -> Seq<char> {
        self.message@
    }
}

impl SynthError {
    /// An error that carries `message` as its text.
    pub fn new(message: &str) -> (e: SynthError)
        ensures
            e@ == message@,
    {
        SynthError { message: message.to_string() }
    }

    /// The error that wraps a failure described by `detail`.
    pub fn occurred(detail: &str) -> (e: SynthError)
        ensures
            e@ == "An synthesis error occurred: "@ + detail@,
    {
        let message = String::from_str("An synthesis error occurred: ").concat(detail);
        SynthError { message }
    }

    /// The text of the error.
    pub fn message(&self) -> (s: String)
        ensures
            s@ == self@,
    {
        self.message.clone()
    }
}


/// Error raised while talking to a MIDI port or decoding a MIDI message.
#[derive(Debug, Clone)]
pub struct MidiError {
    message: String,
}

impl View for MidiError {
    type V = Seq<char>;

    closed spec fn view(&self) -> Seq<char> {
        self.message@
    }
}

impl MidiError {
    /// An error that carries `message` as its text.
    pub fn new(message: &str) -> (e: MidiError)
        ensures
            e@ == message@,
    {
        MidiError { message: message.to_string() }
    }

    /// The error that wraps a failure described by `detail`.
    pub fn occurred(detail: &str) -> (e: MidiError)
        ensures
            e@ == "An Midi error occurred: "@ + detail@,
    {
        let message = String::from_str("An Midi error occurred: ").concat(detail);
        MidiError { message }
    }

    /// The text of the error.
    pub fn message(&self) -> (s: String)
        ensures
            s@ == self@,
    {
        self.message.clone()
    }
}


/// Error raised by the audio engine.
#[derive(Debug)]
pub struct AudioError {
    message: String,
}

impl View for AudioError {
    type V = Seq<char>;

    closed spec fn view(&self) -> Seq<char> {
        self.message@
    }
}

impl AudioError {
    /// An error that carries `message` as its text.
    pub fn new(message: &str) -> (e: AudioError)
        ensures
            e@ == message@,
    {
        AudioError { message: message.to_string() }
    }

    /// The error that wraps a failure described by `detail`.
    pub fn occurred(detail: &str) -> (e: AudioError)
        ensures
            e@ == "An audio engine error occurred: "@ + detail@,
    {
        let message = String::from_str("An audio engine error occurred: ").concat(detail);
        AudioError { message }
    }

    /// The text of the error.
    pub fn message(&self) -> (s: String)
        ensures
            s@ == self@,
    {
        self.message.clone()
    }
}

} // verus!
