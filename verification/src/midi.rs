//! MIDI messages and the decoding of raw MIDI bytes.

use vstd::prelude::*;

use crate::syerr::MidiError;

verus! {

/// A decoded MIDI message. The first field of each channel message is the
/// channel, written as the ASCII code of its upper-case hexadecimal digit.
#[derive(Debug, PartialEq, Eq, Clone)]
pub enum MidiMessage {
    /// Channel, key, velocity.
    NoteOn(u8, u8, u8),
    /// Channel, key, velocity.
    NoteOff(u8, u8, u8),
    /// Channel, controller, value.
    ControlChange(u8, u8, u8),
    /// Channel, program number.
    ProgramChange(u8, u8),
    /// Channel, pitch-bend data.
    PitchBend(u8, u8),
    /// Channel, key, pressure.
    Aftertouch(u8, u8, u8),
    Sysex(Vec<u8>),
    MidiClock,
    MidiStart,
    MidiContinue,
    MidiStop,
    Reset,
}

/// The ASCII code of the upper-case hexadecimal digit of `n` (`0 <= n < 16`).
pub open spec fn hex_digit_code(n: int) -> u8 {
    if n < 10 {
        (48 + n) as u8
    } else {
        (55 + n) as u8
    }
}

/// The message type of a status byte: its high nibble.
pub open spec fn status_type(status: u8) -> int {
    status as int / 16
}

/// The channel of a status byte, as the ASCII code of its low nibble's digit.
pub open spec fn status_channel(status: u8) -> u8 {
    hex_digit_code(status as int % 16)
}

/// How many bytes a message starting with `status` is read from.
pub open spec fn required_len(status: u8) -> nat {
    let t = status_type(status);
    if t == 8 || t == 9 || t == 10 || t == 11 {
        3
    } else if t == 12 || t == 14 {
        2
    } else {
        1
    }
}

/// The message that the bytes `m` stand for, or `None` when the type of the
/// status byte is not one that is decoded.
pub open spec fn decoded(m: Seq<u8>) -> Option<MidiMessage>
    recommends
        m.len() >= 1,
        m.len() >= required_len(m[0]),
{
    let t = status_type(m[0]);
    let c = status_channel(m[0]);
    if t == 8 {
        Some(MidiMessage::NoteOff(c, m[1], m[2]))
    } else if t == 9 {
        Some(MidiMessage::NoteOn(c, m[1], m[2]))
    } else if t == 10 {
        Some(MidiMessage::Aftertouch(c, m[1], m[2]))
    } else if t == 11 {
        Some(MidiMessage::ControlChange(c, m[1], m[2]))
    } else if t == 12 {
        Some(MidiMessage::ProgramChange(c, m[1]))
    } else if t == 14 {
        Some(MidiMessage::PitchBend(c, m[1]))
    } else {
        None
    }
}

/// The ASCII code of the upper-case hexadecimal digit of `n`.
fn hex_digit(n: u8) -> (c: u8)
    requires
        n < 16,
    ensures
        c == hex_digit_code(n as int),
{
    if n < 10 {
        48 + n
    } else {
        55 + n
    }
}

/// Whether `message` holds every byte that [`midi_format`] reads from it
/// (an empty message is refused without reading).
pub fn message_complete(message: &Vec<u8>) -> (b: bool)
    ensures
        b == (message@.len() == 0 || message@.len() >= required_len(message@[0])),
{
    if message.len() == 0 {
        return true;
    }
    let t = message[0] / 16;
    let needed: usize = if t == 8 || t == 9 || t == 10 || t == 11 {
        3
    } else if t == 12 || t == 14 {
        2
    } else {
        1
    };
    message.len() >= needed
}

/// Decodes the raw bytes of one MIDI message.
pub fn midi_format(message: Vec<u8>) -> (r: Result<MidiMessage, MidiError>)
    requires
        message.len() == 0 || message.len() >= required_len(message[0]),
    ensures
        message.len() == 0 ==> (r matches Err(e) && e@ == "Empty Message !"@),
        message.len() > 0 ==> match decoded(message@) {
            Some(msg) => r == Ok::<MidiMessage, MidiError>(msg),
            None => r matches Err(e) && e@ == "Unresolved Midi Message type Byte"@,
        },
{
    if message.len() == 0 {
        return Err(MidiError::new("Empty Message !"));
    }
    let status = message[0];
    let message_type = status / 16;
    let chan = hex_digit(status % 16);
    if message_type == 8 {
        Ok(MidiMessage::NoteOff(chan, message[1], message[2]))
    } else if message_type == 9 {
        Ok(MidiMessage::NoteOn(chan, message[1], message[2]))
    } else if message_type == 10 {
        Ok(MidiMessage::Aftertouch(chan, message[1], message[2]))
    } else if message_type == 11 {
        Ok(MidiMessage::ControlChange(chan, message[1], message[2]))
    } else if message_type == 12 {
        Ok(MidiMessage::ProgramChange(chan, message[1]))
    } else if message_type == 14 {
        Ok(MidiMessage::PitchBend(chan, message[1]))
    } else {
        Err(MidiError::new("Unresolved Midi Message type Byte"))
    }
}

impl MidiMessage {
    /// The key whose pitch the message sounds: `Some(key)` for a note-on or
    /// aftertouch message with a key of at most 127, `None` for the other
    /// messages, and an error for a key above 127.
    pub fn pitch_key(&self) -> (r: Result<Option<u8>, MidiError>)
        ensures
            match *self {
                MidiMessage::NoteOn(_, k, _) => if k <= 127 {
                    r == Ok::<Option<u8>, MidiError>(Some(k))
                } else {
                    r matches Err(e) && e@ == "Unresolved Key"@
                },
                MidiMessage::Aftertouch(_, k, _) => if k <= 127 {
                    r == Ok::<Option<u8>, MidiError>(Some(k))
                } else {
                    r matches Err(e) && e@ == "Unresolved Key"@
                },
                _ => r == Ok::<Option<u8>, MidiError>(None),
            },
    {
        match self {
            MidiMessage::NoteOn(_, k, _) | MidiMessage::Aftertouch(_, k, _) => {
                if *k <= 127 {
                    Ok(Some(*k))
                } else {
                    Err(MidiError::new("Unresolved Key"))
                }
            },
            _ => Ok(None),
        }
    }
}

} // verus!
