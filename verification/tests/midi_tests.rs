use lrs_synth::midi::{message_complete, midi_format, MidiMessage};
use lrs_synth::syerr::{AudioError, MidiError, SynthError};

#[test]
fn empty_message_is_refused() {
    let r = midi_format(vec![]);
    assert_eq!(r.unwrap_err().message(), "Empty Message !");
}

#[test]
fn note_on_channel_zero() {
    let r = midi_format(vec![0x90, 60, 100]).unwrap();
    assert_eq!(r, MidiMessage::NoteOn(b'0', 60, 100));
}

#[test]
fn note_off_channel_ten_is_letter_a() {
    let r = midi_format(vec![0x8A, 64, 0]).unwrap();
    assert_eq!(r, MidiMessage::NoteOff(b'A', 64, 0));
}

#[test]
fn aftertouch_and_control_change() {
    assert_eq!(midi_format(vec![0xA3, 61, 20]).unwrap(), MidiMessage::Aftertouch(b'3', 61, 20));
    assert_eq!(midi_format(vec![0xB5, 7, 127]).unwrap(), MidiMessage::ControlChange(b'5', 7, 127));
}

#[test]
fn two_byte_messages() {
    assert_eq!(midi_format(vec![0xC1, 12]).unwrap(), MidiMessage::ProgramChange(b'1', 12));
    assert_eq!(midi_format(vec![0xEF, 64]).unwrap(), MidiMessage::PitchBend(b'F', 64));
}

#[test]
fn extra_bytes_are_ignored() {
    assert_eq!(midi_format(vec![0x92, 1, 2, 3, 4]).unwrap(), MidiMessage::NoteOn(b'2', 1, 2));
}

#[test]
fn unknown_types_are_refused() {
    for status in [0xD0u8, 0xF8, 0x40, 0x00, 0x7F] {
        let r = midi_format(vec![status, 0, 0]);
        assert_eq!(r.unwrap_err().message(), "Unresolved Midi Message type Byte");
    }
}

#[test]
fn pitch_key_of_notes() {
    assert_eq!(MidiMessage::NoteOn(b'0', 60, 90).pitch_key().unwrap(), Some(60));
    assert_eq!(MidiMessage::Aftertouch(b'0', 127, 3).pitch_key().unwrap(), Some(127));
    assert_eq!(MidiMessage::NoteOff(b'0', 60, 90).pitch_key().unwrap(), None);
    assert_eq!(MidiMessage::MidiClock.pitch_key().unwrap(), None);
}

#[test]
fn pitch_key_above_range_is_refused() {
    let e = MidiMessage::NoteOn(b'0', 200, 90).pitch_key().unwrap_err();
    assert_eq!(e.message(), "Unresolved Key");
}

#[test]
fn error_texts() {
    assert_eq!(SynthError::new("boom").message(), "boom");
    assert_eq!(MidiError::new("no port").message(), "no port");
    assert_eq!(AudioError::new("").message(), "");
    assert_eq!(SynthError::occurred("disk").message(), "An synthesis error occurred: disk");
    assert_eq!(MidiError::occurred("port").message(), "An Midi error occurred: port");
    assert_eq!(AudioError::occurred("device").message(), "An audio engine error occurred: device");
}

#[test]
fn channel_digits_tell_nibbles_apart() {
    let mut seen = Vec::new();
    for n in 0u8..16 {
        match midi_format(vec![0x90 | n, 1, 1]).unwrap() {
            MidiMessage::NoteOn(c, _, _) => {
                assert!(c.is_ascii_hexdigit() && !c.is_ascii_lowercase());
                assert!(!seen.contains(&c));
                seen.push(c);
            }
            _ => panic!("not a note-on"),
        }
    }
}

#[test]
fn completeness_of_messages() {
    assert!(message_complete(&vec![]));
    assert!(!message_complete(&vec![0x90, 1]));
    assert!(message_complete(&vec![0x90, 1, 2]));
    assert!(!message_complete(&vec![0xC0]));
    assert!(message_complete(&vec![0xC0, 5]));
    assert!(message_complete(&vec![0xF8]));
    assert!(message_complete(&vec![0xD0]));
}
