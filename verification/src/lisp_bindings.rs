//! The commands that the Lisp prompt offers: `osc`, `mod` and `route`.
//!
//! The interpreter hands each command its arguments; the caller converts
//! each one into a [`LispArg`] and the command works on the node tree.

use vstd::prelude::*;

use crate::audiolib::{Node, NodeView};
use crate::dsp::modulation::OscModulatorView;
use crate::dsp::oscillators::{OscillatorView, Waveform};
use crate::toolbox::NodeTree;

verus! {

/// An argument of a command, as far as the commands read it: a string, a
/// number (an integer argument is taken as the number it stands for), or
/// anything else.
#[derive(Clone, Debug)]
pub enum LispArg<S> {
    Text(String),
    Number(S),
    Other,
}

/// The text of a string argument.
pub open spec fn text_of<S>(a: LispArg<S>) -> Seq<char> {
    match a {
        LispArg::Text(s) => s@,
        _ => Seq::empty(),
    }
}

/// The code of `c` with the ASCII capital letters folded to small ones.
pub open spec fn folded_code(c: char) -> u32 {
    let u = c as u32;
    if 65 <= u <= 90 {
        (u + 32) as u32
    } else {
        u
    }
}

/// `name` spells `word` (a word of small ASCII letters), ignoring case.
pub open spec fn spells(name: Seq<char>, word: Seq<char>) -> bool {
    &&& name.len() == word.len()
    &&& forall|i: int| 0 <= i < name.len() ==> folded_code(#[trigger] name[i]) == word[i] as u32
}

/// The wave shape that `name` names: "sine", "square", "saw" or
/// "triangle", in any mix of upper and lower case. Folding the ASCII
/// capitals is the whole of lower-casing here: no other character
/// lower-cases to one of the letters of these words alone.
pub open spec fn waveform_named(name: Seq<char>) -> Option<Waveform> {
    if spells(name, "sine"@) {
        Some(Waveform::Sine)
    } else if spells(name, "square"@) {
        Some(Waveform::Square)
    } else if spells(name, "saw"@) {
        Some(Waveform::Saw)
    } else if spells(name, "triangle"@) {
        Some(Waveform::Triangle)
    } else {
        None
    }
}

/// Whether `name` spells `word`, ignoring case.
fn spells_word(name: &str, word: &str) -> (b: bool)
    ensures
        b == spells(name@, word@),
{
    let n = name.unicode_len();
    if n != word.unicode_len() {
        return false;
    }
    let mut i: usize = 0;
    while i < n
        invariant
            n == name@.len(),
            n == word@.len(),
            i <= n,
            forall|j: int| 0 <= j < i ==> folded_code(#[trigger] name@[j]) == word@[j] as u32,
        decreases n - i,
    {
        let c = name.get_char(i) as u32;
        let folded: u32 = if 65 <= c && c <= 90 {
            c + 32
        } else {
            c
        };
        if folded != word.get_char(i) as u32 {
            return false;
        }
        i = i + 1;
    }
    true
}

/// The wave shape that `name` names, ignoring case.
pub fn waveform_from_name(name: &str) -> (r: Option<Waveform>)
    ensures
        r == waveform_named(name@),
{
    if spells_word(name, "sine") {
        Some(Waveform::Sine)
    } else if spells_word(name, "square") {
        Some(Waveform::Square)
    } else if spells_word(name, "saw") {
        Some(Waveform::Saw)
    } else if spells_word(name, "triangle") {
        Some(Waveform::Triangle)
    } else {
        None
    }
}

/// The `osc` command fails (the arguments it reads run out before it has
/// found a bad one, or the wave name is unknown) instead of answering.
pub open spec fn osc_call_fails<S>(args: Seq<LispArg<S>>) -> bool {
    ||| args.len() < 1
    ||| args[0] is Text && args.len() < 2
    ||| args[0] is Text && args[1] is Text && args.len() < 3
    ||| args[0] is Text && args[1] is Text && args[2] is Number && args.len() < 4
    ||| args[0] is Text && args[1] is Text && args[2] is Number && args[3] is Number
        && waveform_named(text_of(args[1])) is None
}

/// The message with which the `osc` command refuses `args`, if it does.
pub open spec fn osc_call_refusal<S>(args: Seq<LispArg<S>>) -> Option<Seq<char>> {
    if !(args[0] is Text) || !(args[1] is Text) {
        Some("Invalid string"@)
    } else if !(args[2] is Number) || !(args[3] is Number) {
        Some("Invalid float"@)
    } else {
        None
    }
}

/// The `mod` command fails instead of answering.
pub open spec fn mod_call_fails<S>(args: Seq<LispArg<S>>) -> bool {
    ||| args.len() < 1
    ||| args[0] is Text && args.len() < 2
}

/// The message with which the `mod` command refuses `args`, if it does.
pub open spec fn mod_call_refusal<S>(args: Seq<LispArg<S>>) -> Option<Seq<char>> {
    if !(args[0] is Text) {
        Some("Invalid string"@)
    } else if !(args[1] is Number) {
        Some("Invalid float"@)
    } else {
        None
    }
}

/// The `route` command fails instead of answering: the arguments run out,
/// a label names no node, or the destination is an oscillator.
pub open spec fn route_call_fails<S>(tree: NodeTree<S>, args: Seq<LispArg<S>>) -> bool {
    ||| args.len() < 1
    ||| args[0] is Text && args.len() < 2
    ||| args[0] is Text && args[1] is Text && {
        ||| !tree@.labels.contains_key(text_of(args[0]))
        ||| !tree@.labels.contains_key(text_of(args[1]))
        ||| tree@.nodes[tree@.labels[text_of(args[1])] as int] is Osc
    }
}

/// The message with which the `route` command refuses `args`, if it does.
pub open spec fn route_call_refusal<S>(args: Seq<LispArg<S>>) -> Option<Seq<char>> {
    if !(args[0] is Text) || !(args[1] is Text) {
        Some("Invalid string"@)
    } else {
        None
    }
}

/// Whether the argument is a string.
fn is_text<S>(arg: &LispArg<S>) -> (b: bool)
    ensures
        b == (*arg is Text),
{
    match arg {
        LispArg::Text(_) => true,
        _ => false,
    }
}

/// Whether the argument is a number.
fn is_number<S>(arg: &LispArg<S>) -> (b: bool)
    ensures
        b == (*arg is Number),
{
    match arg {
        LispArg::Number(_) => true,
        _ => false,
    }
}

/// Whether the `osc` command fails on `args` instead of answering; a
/// caller tests this before [`lisp_new_osc`].
pub fn osc_args_fail<S>(args: &Vec<LispArg<S>>) -> (b: bool)
    ensures
        b == osc_call_fails(args@),
{
    if args.len() < 1 {
        return true;
    }
    if !is_text(&args[0]) {
        return false;
    }
    if args.len() < 2 {
        return true;
    }
    if !is_text(&args[1]) {
        return false;
    }
    if args.len() < 3 {
        return true;
    }
    if !is_number(&args[2]) {
        return false;
    }
    if args.len() < 4 {
        return true;
    }
    if !is_number(&args[3]) {
        return false;
    }
    match &args[1] {
        LispArg::Text(name) => waveform_from_name(name.as_str()).is_none(),
        _ => false,
    }
}

/// Whether the `mod` command fails on `args` instead of answering; a
/// caller tests this before [`lisp_new_mod`].
pub fn mod_args_fail<S>(args: &Vec<LispArg<S>>) -> (b: bool)
    ensures
        b == mod_call_fails(args@),
{
    args.len() < 1 || (is_text(&args[0]) && args.len() < 2)
}

/// Whether the `route` command fails on `args` instead of answering; a
/// caller tests this before [`lisp_route_node`].
pub fn route_args_fail<S>(tree: &NodeTree<S>, args: &Vec<LispArg<S>>) -> (b: bool)
    requires
        tree.wf(),
    ensures
        b == route_call_fails(*tree, args@),
{
    if args.len() < 1 {
        return true;
    }
    if !is_text(&args[0]) {
        return false;
    }
    if args.len() < 2 {
        return true;
    }
    match (&args[0], &args[1]) {
        (LispArg::Text(source), LispArg::Text(destination)) => {
            let s = tree.lookup(source.as_str());
            let d = tree.lookup(destination.as_str());
            match (s, d) {
                (Some(_), Some(d)) => match tree.node(d) {
                    Node::OscNode(_) => true,
                    _ => false,
                },
                _ => true,
            }
        },
        _ => false,
    }
}

/// The text of a string argument, or the refusal `Invalid string`.
fn text_arg<S>(arg: &LispArg<S>) -> (r: Result<String, String>)
    ensures
        arg is Text ==> (r matches Ok(s) && s@ == text_of(*arg)),
        !(arg is Text) ==> (r matches Err(e) && e@ == "Invalid string"@),
{
    match arg {
        LispArg::Text(s) => Ok(s.clone()),
        _ => Err("Invalid string".to_string()),
    }
}

/// The value of a number argument, or the refusal `Invalid float`.
fn number_arg<S: Copy>(arg: &LispArg<S>) -> (r: Result<S, String>)
    ensures
        arg is Number ==> r == Ok::<S, String>(arg->Number_0),
        !(arg is Number) ==> (r matches Err(e) && e@ == "Invalid float"@),
{
    match arg {
        LispArg::Number(f) => Ok(*f),
        _ => Err("Invalid float".to_string()),
    }
}

/// `(osc label wave freq amp)`: adds an oscillator to the tree.
pub fn lisp_new_osc<S: Copy>(tree: &mut NodeTree<S>, args: &Vec<LispArg<S>>) -> (r: Result<String, String>)
    requires
        old(tree).wf(),
        old(tree)@.nodes.len() < usize::MAX,
        !osc_call_fails(args@),
    ensures
        final(tree).wf(),
        osc_call_refusal(args@) matches Some(msg) ==> {
            &&& r matches Err(e) && e@ == msg
            &&& final(tree)@ == old(tree)@
        },
        osc_call_refusal(args@) is None ==> {
            &&& r matches Ok(m) && m@ == "Oscillator added !"@
            &&& final(tree)@.labels == old(tree)@.labels.insert(
                text_of(args@[0]),
                old(tree)@.nodes.len() as usize,
            )
            &&& final(tree)@.nodes == old(tree)@.nodes.push(
                NodeView::Osc(
                    OscillatorView {
                        label: text_of(args@[0]),
                        waveform: waveform_named(text_of(args@[1]))->0,
                        frequency_hz: args@[2]->Number_0,
                        amplitude: args@[3]->Number_0,
                    },
                ),
            )
            &&& final(tree)@.flag == old(tree)@.flag
        },
{
    let label = match text_arg(&args[0]) {
        Ok(s) => s,
        Err(e) => return Err(e),
    };
    let wave = match text_arg(&args[1]) {
        Ok(s) => s,
        Err(e) => return Err(e),
    };
    let freq = match number_arg(&args[2]) {
        Ok(f) => f,
        Err(e) => return Err(e),
    };
    let amp = match number_arg(&args[3]) {
        Ok(f) => f,
        Err(e) => return Err(e),
    };
    let wave = waveform_from_name(wave.as_str()).unwrap();
    tree.new_osc(label, wave, freq, amp);
    Ok("Oscillator added !".to_string())
}

/// `(mod label index)`: adds a modulator to the tree.
pub fn lisp_new_mod<S: Copy>(tree: &mut NodeTree<S>, args: &Vec<LispArg<S>>) -> (r: Result<String, String>)
    requires
        old(tree).wf(),
        old(tree)@.nodes.len() < usize::MAX,
        !mod_call_fails(args@),
    ensures
        final(tree).wf(),
        mod_call_refusal(args@) matches Some(msg) ==> {
            &&& r matches Err(e) && e@ == msg
            &&& final(tree)@ == old(tree)@
        },
        mod_call_refusal(args@) is None ==> {
            &&& r matches Ok(m) && m@ == "Modulator added !"@
            &&& final(tree)@.labels == old(tree)@.labels.insert(
                text_of(args@[0]),
                old(tree)@.nodes.len() as usize,
            )
            &&& final(tree)@.nodes == old(tree)@.nodes.push(
                NodeView::Mod(
                    OscModulatorView {
                        label: text_of(args@[0]),
                        oscs: Seq::<usize>::empty(),
                        mod_index: args@[1]->Number_0,
                    },
                ),
            )
            &&& final(tree)@.flag == old(tree)@.flag
        },
{
    let label = match text_arg(&args[0]) {
        Ok(s) => s,
        Err(e) => return Err(e),
    };
    let index = match number_arg(&args[1]) {
        Ok(f) => f,
        Err(e) => return Err(e),
    };
    tree.new_mod(label, index);
    Ok("Modulator added !".to_string())
}

/// `(route source destination)`: routes one labelled node into another.
pub fn lisp_route_node<S>(tree: &mut NodeTree<S>, args: &Vec<LispArg<S>>) -> (r: Result<String, String>)
    requires
        old(tree).wf(),
        !route_call_fails(*old(tree), args@),
    ensures
        final(tree).wf(),
        route_call_refusal(args@) matches Some(msg) ==> {
            &&& r matches Err(e) && e@ == msg
            &&& final(tree)@ == old(tree)@
        },
        route_call_refusal(args@) is None ==> {
            &&& r matches Ok(m) && m@ == "Nodes routed !"@
            &&& final(tree)@.labels == old(tree)@.labels
            &&& final(tree)@.nodes == old(tree)@.nodes.update(
                old(tree)@.labels[text_of(args@[1])] as int,
                old(tree)@.nodes[old(tree)@.labels[text_of(args@[1])] as int].routed(
                    old(tree)@.labels[text_of(args@[0])],
                ),
            )
            &&& final(tree)@.flag == old(tree)@.flag
        },
{
    let source = match text_arg(&args[0]) {
        Ok(s) => s,
        Err(e) => return Err(e),
    };
    let destination = match text_arg(&args[1]) {
        Ok(s) => s,
        Err(e) => return Err(e),
    };
    tree.route_in(source, destination);
    Ok("Nodes routed !".to_string())
}

} // verus!
