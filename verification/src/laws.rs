//! Properties that hold across the operations of the library.

use vstd::prelude::*;

use crate::audiolib::{NodeView, ProcessNode};
use crate::lisp_bindings::{
    folded_code, mod_call_refusal, osc_call_refusal, route_call_refusal, spells, waveform_named, LispArg,
};
use crate::dsp::oscillators::Waveform;
use crate::midi::{decoded, required_len, status_channel, MidiMessage};

verus! {

/// Routing a node into an output node makes the stream play that node.
pub proof fn law_output_streams_routed_source<S>(n: NodeView<S>, source: usize)
    requires
        n is Process,
    ensures
        n.routed(source).stream_input() == Some(source),
{
}

/// Clearing an output node undoes a route into it: afterwards the node is
/// what clearing it without the route gives, and it streams nothing.
pub proof fn law_clear_undoes_route<S>(n: NodeView<S>, source: usize)
    requires
        n is Process,
    ensures
        n.routed(source).cleared() == n.cleared(),
        n.routed(source).cleared().stream_input() is None,
{
}

/// Of two routes into an output node, the later one wins.
pub proof fn law_last_route_wins<S>(n: NodeView<S>, first: usize, second: usize)
    requires
        n is Process,
    ensures
        n.routed(first).routed(second) == n.routed(second),
{
}

/// A modulator keeps every node routed into it, in the order of routing.
pub proof fn law_modulator_keeps_routes<S>(n: NodeView<S>, first: usize, second: usize)
    requires
        n is Mod,
    ensures
        n.routed(first).routed(second) is Mod,
        n.routed(first).routed(second)->Mod_0.oscs == n->Mod_0.oscs + seq![first, second],
        n.routed(first).routed(second)->Mod_0.label == n->Mod_0.label,
        n.routed(first).routed(second)->Mod_0.mod_index == n->Mod_0.mod_index,
{
    assert(n.routed(first).routed(second)->Mod_0.oscs =~= n->Mod_0.oscs + seq![first, second]);
}

/// Setting an oscillator's frequency reads back, changes nothing else, and
/// of two settings the later one wins.
pub proof fn law_frequency_edit<S>(n: NodeView<S>, first: S, second: S)
    requires
        n is Osc,
    ensures
        n.with_frequency(first) is Osc,
        n.with_frequency(first)->Osc_0.frequency_hz == first,
        n.with_frequency(first)->Osc_0.label == n->Osc_0.label,
        n.with_frequency(first)->Osc_0.waveform == n->Osc_0.waveform,
        n.with_frequency(first)->Osc_0.amplitude == n->Osc_0.amplitude,
        n.with_frequency(first).with_frequency(second) == n.with_frequency(second),
{
}

/// Giving a node the host's settings does not change what it streams, and
/// doing it twice is doing it once.
pub proof fn law_attach_keeps_stream<S>(n: NodeView<S>)
    ensures
        n.attached().stream_input() == n.stream_input(),
        n.attached().attached() == n.attached(),
{
}

/// Adding a labelled node: the label names the new node, every other label
/// names what it named before, and every earlier node keeps its place, so
/// routes made before stay as they were.
pub proof fn law_new_node_reads_back<S>(
    labels: Map<Seq<char>, usize>,
    nodes: Seq<NodeView<S>>,
    label: Seq<char>,
    node: NodeView<S>,
    other: Seq<char>,
)
    requires
        nodes.len() < usize::MAX,
        other != label,
    ensures
        labels.insert(label, nodes.len() as usize)[label] == nodes.len(),
        nodes.push(node)[labels.insert(label, nodes.len() as usize)[label] as int] == node,
        labels.insert(label, nodes.len() as usize).contains_key(other) == labels.contains_key(other),
        labels.contains_key(other) ==> labels.insert(label, nodes.len() as usize)[other] == labels[other],
        forall|i: int| 0 <= i < nodes.len() ==> #[trigger] nodes.push(node)[i] == nodes[i],
{
}

/// A wave name is read without regard to the case of its letters.
pub proof fn law_waveform_name_ignores_case(a: Seq<char>, b: Seq<char>)
    requires
        a.len() == b.len(),
        forall|i: int| 0 <= i < a.len() ==> folded_code(#[trigger] a[i]) == folded_code(b[i]),
    ensures
        waveform_named(a) == waveform_named(b),
{
    assert forall|w: Seq<char>| spells(a, w) == spells(b, w) by {
        if spells(a, w) {
            assert forall|i: int| 0 <= i < b.len() implies folded_code(#[trigger] b[i]) == w[i] as u32 by {
                assert(folded_code(a[i]) == w[i] as u32);
            }
        }
        if spells(b, w) {
            assert forall|i: int| 0 <= i < a.len() implies folded_code(#[trigger] a[i]) == w[i] as u32 by {
                assert(folded_code(b[i]) == w[i] as u32);
            }
        }
    }
    assert(spells(a, "sine"@) == spells(b, "sine"@));
    assert(spells(a, "square"@) == spells(b, "square"@));
    assert(spells(a, "saw"@) == spells(b, "saw"@));
    assert(spells(a, "triangle"@) == spells(b, "triangle"@));
}

/// The channel a decoded message carries is an upper-case hexadecimal digit,
/// and it tells the low nibbles of status bytes apart.
pub proof fn law_channel_is_hex_digit(s: u8, t: u8)
    ensures
        48 <= status_channel(s) <= 57 || 65 <= status_channel(s) <= 70,
        status_channel(s) == status_channel(t) <==> s % 16 == t % 16,
{
}

/// Compiling changes no node but output nodes: any other node (a modulator
/// with its inputs, an oscillator, an envelope) is left exactly as it was,
/// and an output node keeps what is routed into it and only gains the
/// host's settings.
pub proof fn law_compile_touches_only_output_nodes<S>(n: NodeView<S>)
    ensures
        !(n is Process) ==> n.attached() == n,
        n is Process ==> n.attached() == NodeView::<S>::Process(
            ProcessNode { input_node: n->Process_0.input_node, host_attached: true },
        ),
{
}

/// The channel of a decoded message is the ASCII code of the upper-case
/// hexadecimal digit of the status byte's low nibble: '0'..'9' for 0..9 and
/// 'A'..'F' for 10..15.
pub proof fn law_channel_digit(s: u8)
    ensures
        status_channel(s) == (if s % 16 < 10 {
            (48 + s % 16) as u8
        } else {
            (55 + s % 16) as u8
        }),
{
}

/// The `osc` command refuses only arguments of the wrong kind: it accepts
/// any two strings followed by any two numbers, and otherwise names the
/// first argument of the wrong kind ("Invalid string" for the label or the
/// wave name, "Invalid float" for the frequency or the amplitude).
pub proof fn law_osc_refuses_only_wrong_kinds<S>(args: Seq<LispArg<S>>)
    ensures
        osc_call_refusal(args) is None <==> (args[0] is Text && args[1] is Text && args[2] is Number
            && args[3] is Number),
        !(args[0] is Text) ==> osc_call_refusal(args) == Some("Invalid string"@),
        args[0] is Text && !(args[1] is Text) ==> osc_call_refusal(args) == Some("Invalid string"@),
        args[0] is Text && args[1] is Text && !(args[2] is Number) ==> osc_call_refusal(args) == Some(
            "Invalid float"@,
        ),
        args[0] is Text && args[1] is Text && args[2] is Number && !(args[3] is Number)
            ==> osc_call_refusal(args) == Some("Invalid float"@),
{
}

/// The `mod` command accepts any string label with any number index, and
/// otherwise names the first argument of the wrong kind.
pub proof fn law_mod_refuses_only_wrong_kinds<S>(args: Seq<LispArg<S>>)
    ensures
        mod_call_refusal(args) is None <==> (args[0] is Text && args[1] is Number),
        !(args[0] is Text) ==> mod_call_refusal(args) == Some("Invalid string"@),
        args[0] is Text && !(args[1] is Number) ==> mod_call_refusal(args) == Some("Invalid float"@),
{
}

/// The `route` command accepts any two strings, whatever nodes they name,
/// and refuses anything else with "Invalid string".
pub proof fn law_route_refuses_only_wrong_kinds<S>(args: Seq<LispArg<S>>)
    ensures
        route_call_refusal(args) is None <==> (args[0] is Text && args[1] is Text),
        !(args[0] is Text && args[1] is Text) ==> route_call_refusal(args) == Some("Invalid string"@),
{
}

/// What a message decodes to, by the high nibble of its status byte: note
/// off, note on, aftertouch and control change carry the next two bytes,
/// program change and pitch bend the next one, and every other type (below
/// 8, 13 and 15) is not decoded. The number of bytes read matches.
pub proof fn law_decoding(m: Seq<u8>)
    requires
        m.len() >= 3,
    ensures
        m[0] / 16 == 8 ==> decoded(m) == Some(MidiMessage::NoteOff(status_channel(m[0]), m[1], m[2])),
        m[0] / 16 == 9 ==> decoded(m) == Some(MidiMessage::NoteOn(status_channel(m[0]), m[1], m[2])),
        m[0] / 16 == 10 ==> decoded(m) == Some(MidiMessage::Aftertouch(status_channel(m[0]), m[1], m[2])),
        m[0] / 16 == 11 ==> decoded(m) == Some(MidiMessage::ControlChange(status_channel(m[0]), m[1], m[2])),
        m[0] / 16 == 12 ==> decoded(m) == Some(MidiMessage::ProgramChange(status_channel(m[0]), m[1])),
        m[0] / 16 == 14 ==> decoded(m) == Some(MidiMessage::PitchBend(status_channel(m[0]), m[1])),
        (m[0] / 16 < 8 || m[0] / 16 == 13 || m[0] / 16 == 15) ==> decoded(m) is None,
        8 <= m[0] / 16 <= 11 ==> required_len(m[0]) == 3,
        (m[0] / 16 == 12 || m[0] / 16 == 14) ==> required_len(m[0]) == 2,
        (m[0] / 16 < 8 || m[0] / 16 == 13 || m[0] / 16 == 15) ==> required_len(m[0]) == 1,
{
}

/// Case folding turns exactly the ASCII capitals into the small letters and
/// leaves every other character as it is.
pub proof fn law_case_folding(c: char)
    ensures
        65 <= c as u32 <= 90 ==> folded_code(c) == c as u32 + 32,
        !(65 <= c as u32 <= 90) ==> folded_code(c) == c as u32,
{
}

/// A name spelled in small letters names its wave shape, and a name that
/// spells none of the four words, in any case, names none.
pub proof fn law_wave_names(name: Seq<char>)
    ensures
        name == "sine"@ ==> waveform_named(name) == Some(Waveform::Sine),
        name == "square"@ ==> waveform_named(name) == Some(Waveform::Square),
        name == "saw"@ ==> waveform_named(name) == Some(Waveform::Saw),
        name == "triangle"@ ==> waveform_named(name) == Some(Waveform::Triangle),
        !spells(name, "sine"@) && !spells(name, "square"@) && !spells(name, "saw"@) && !spells(
            name,
            "triangle"@,
        ) ==> waveform_named(name) is None,
{
    reveal_strlit("sine");
    reveal_strlit("square");
    reveal_strlit("saw");
    reveal_strlit("triangle");
    if name == "sine"@ {
        assert(spells(name, "sine"@));
    }
    if name == "square"@ {
        assert(!spells(name, "sine"@));
        assert(spells(name, "square"@));
    }
    if name == "saw"@ {
        assert(!spells(name, "sine"@));
        assert(!spells(name, "square"@));
        assert(spells(name, "saw"@));
    }
    if name == "triangle"@ {
        assert(!spells(name, "sine"@));
        assert(!spells(name, "square"@));
        assert(!spells(name, "saw"@));
        assert(spells(name, "triangle"@));
    }
}

/// Clearing touches only output nodes, and routing into an envelope makes
/// it read from the routed node and keeps its label.
pub proof fn law_clear_and_envelope_routes<S>(n: NodeView<S>, source: usize)
    ensures
        !(n is Process) ==> n.cleared() == n,
        n is Process ==> n.cleared() == NodeView::<S>::Process(
            ProcessNode { input_node: None, host_attached: n->Process_0.host_attached },
        ),
        n is Osc ==> n.routed(source) == n,
        n is Env ==> n.routed(source) is Env && n.routed(source)->Env_0.source == Some(source)
            && n.routed(source)->Env_0.label == n->Env_0.label,
        n is Process ==> n.routed(source)->Process_0.host_attached == n->Process_0.host_attached,
{
}

} // verus!
