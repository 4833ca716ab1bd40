use lrs_synth::audiolib::{Node, ProcessNode};
use lrs_synth::dsp::env::Env;
use lrs_synth::dsp::modulation::OscModulator;
use lrs_synth::dsp::oscillators::Waveform;
use lrs_synth::toolbox::{route_node, NodeTree, Playback, Route};

fn process_input(tree: &NodeTree<f32>) -> Option<usize> {
    let p = tree.lookup("process").unwrap();
    match tree.node(p) {
        Node::ProcessNode(p) => p.input_node,
        _ => panic!("not an output node"),
    }
}

#[test]
fn new_tree_has_only_the_output_node() {
    let mut tree = NodeTree::<f32>::new();
    assert_eq!(tree.node_count(), 1);
    assert_eq!(tree.lookup("process"), Some(0));
    assert_eq!(tree.lookup("osc"), None);
    assert!(!tree.flag);
    assert_eq!(tree.compile(), None);
}

#[test]
fn route_oscillator_into_output_then_compile() {
    let mut tree = NodeTree::<f32>::new();
    tree.new_osc("a".to_string(), Waveform::Sine, 440.0, 0.5);
    let a = tree.lookup("a").unwrap();
    assert_eq!(a, 1);
    tree.route_in("a".to_string(), "process".to_string());
    assert_eq!(tree.compile(), Some(a));
    match tree.node(0) {
        Node::ProcessNode(p) => assert!(p.host_attached),
        _ => panic!(),
    }
}

#[test]
fn clear_undoes_the_route() {
    let mut tree = NodeTree::<f32>::new();
    tree.new_osc("a".to_string(), Waveform::Saw, 220.0, 1.0);
    tree.route_in("a".to_string(), "process".to_string());
    tree.clear();
    assert_eq!(process_input(&tree), None);
    assert_eq!(tree.compile(), None);
}

#[test]
fn last_route_into_output_wins() {
    let mut tree = NodeTree::<f32>::new();
    tree.new_osc("a".to_string(), Waveform::Sine, 1.0, 1.0);
    tree.new_osc("b".to_string(), Waveform::Square, 2.0, 1.0);
    tree.route_in("a".to_string(), "process".to_string());
    tree.route_in("b".to_string(), "process".to_string());
    assert_eq!(process_input(&tree), tree.lookup("b"));
}

#[test]
fn edit_frequency_reads_back() {
    let mut tree = NodeTree::<f32>::new();
    tree.new_osc("a".to_string(), Waveform::Triangle, 100.0, 0.25);
    tree.edit_osc_freq("a", 300.0);
    tree.edit_osc_freq("a", 330.0);
    match tree.node(tree.lookup("a").unwrap()) {
        Node::OscNode(o) => {
            assert_eq!(o.frequency_hz, 330.0);
            assert_eq!(o.amplitude, 0.25);
            assert_eq!(o.waveform, Waveform::Triangle);
            assert_eq!(o.label, "a");
        }
        _ => panic!(),
    }
}

#[test]
fn relabelling_keeps_old_routes() {
    let mut tree = NodeTree::<f32>::new();
    tree.new_osc("a".to_string(), Waveform::Sine, 1.0, 1.0);
    tree.route_in("a".to_string(), "process".to_string());
    tree.new_osc("a".to_string(), Waveform::Saw, 2.0, 1.0);
    assert_eq!(tree.node_count(), 3);
    assert_eq!(tree.lookup("a"), Some(2));
    assert_eq!(process_input(&tree), Some(1));
}

#[test]
fn modulator_collects_routes_in_order() {
    let mut tree = NodeTree::<f32>::new();
    tree.new_mod("m".to_string(), 0.5);
    tree.new_osc("a".to_string(), Waveform::Sine, 1.0, 1.0);
    tree.new_osc("b".to_string(), Waveform::Sine, 2.0, 1.0);
    assert_eq!(tree.playback(1), None);
    tree.route_in("b".to_string(), "m".to_string());
    tree.route_in("a".to_string(), "m".to_string());
    match tree.node(1) {
        Node::ModNode(m) => {
            assert_eq!(m.oscs, vec![3, 2]);
            assert_eq!(m.mod_index, 0.5);
        }
        _ => panic!(),
    }
    assert_eq!(tree.playback(1), Some(Playback::Blend(vec![3, 2])));
    assert_eq!(tree.playback(2), Some(Playback::Voice(2)));
    assert_eq!(tree.playback(0), Some(Playback::Silence));
}

#[test]
fn modulator_with_non_oscillator_input_has_no_playback() {
    let mut tree = NodeTree::<f32>::new();
    tree.new_mod("m".to_string(), 1.0);
    tree.new_mod("n".to_string(), 1.0);
    tree.route_in("n".to_string(), "m".to_string());
    assert_eq!(tree.playback(1), None);
}

#[test]
fn route_and_nodes() {
    let r = Route::new("osc1", "process");
    assert_eq!(r.source, "osc1");
    assert_eq!(r.destination, "process");
    let mut p = ProcessNode::new(None, false);
    route_node(4, &mut p);
    assert_eq!(p.input_node, Some(4));
    p.context();
    assert!(p.host_attached);
    let mut m = OscModulator::new("m".to_string(), 2.0f32);
    route_node(1, &mut m);
    route_node(1, &mut m);
    assert_eq!(m.oscs, vec![1, 1]);
    let mut e = Env::new("env");
    assert_eq!(e.source, None);
    route_node(7, &mut e);
    assert_eq!(e.source, Some(7));
    assert_eq!(e.label, "env");
}
