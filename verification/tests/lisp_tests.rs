use lrs_synth::audiolib::Node;
use lrs_synth::dsp::oscillators::Waveform;
use lrs_synth::lisp_bindings::{mod_args_fail, osc_args_fail, route_args_fail};
use lrs_synth::lisp_bindings::{lisp_new_mod, lisp_new_osc, lisp_route_node, waveform_from_name, LispArg};
use lrs_synth::toolbox::NodeTree;

fn text(s: &str) -> LispArg<f32> {
    LispArg::Text(s.to_string())
}

#[test]
fn wave_names_ignore_case() {
    assert_eq!(waveform_from_name("sine"), Some(Waveform::Sine));
    assert_eq!(waveform_from_name("SiNe"), Some(Waveform::Sine));
    assert_eq!(waveform_from_name("SQUARE"), Some(Waveform::Square));
    assert_eq!(waveform_from_name("Saw"), Some(Waveform::Saw));
    assert_eq!(waveform_from_name("triAngle"), Some(Waveform::Triangle));
    assert_eq!(waveform_from_name("sin"), None);
    assert_eq!(waveform_from_name("sines"), None);
    assert_eq!(waveform_from_name(""), None);
    assert_eq!(waveform_from_name("s1ne"), None);
}

#[test]
fn osc_command_adds_an_oscillator() {
    let mut tree = NodeTree::<f32>::new();
    let args = vec![text("lead"), text("Square"), LispArg::Number(110.0), LispArg::Number(0.3)];
    assert_eq!(lisp_new_osc(&mut tree, &args), Ok("Oscillator added !".to_string()));
    let id = tree.lookup("lead").unwrap();
    match tree.node(id) {
        Node::OscNode(o) => {
            assert_eq!(o.waveform, Waveform::Square);
            assert_eq!(o.frequency_hz, 110.0);
            assert_eq!(o.amplitude, 0.3);
        }
        _ => panic!(),
    }
}

#[test]
fn osc_command_refusals() {
    let mut tree = NodeTree::<f32>::new();
    let bad_label = vec![LispArg::Number(1.0)];
    assert_eq!(lisp_new_osc(&mut tree, &bad_label), Err("Invalid string".to_string()));
    let bad_wave = vec![text("x"), LispArg::Other];
    assert_eq!(lisp_new_osc(&mut tree, &bad_wave), Err("Invalid string".to_string()));
    let bad_freq = vec![text("x"), text("nonsense"), text("440")];
    assert_eq!(lisp_new_osc(&mut tree, &bad_freq), Err("Invalid float".to_string()));
    let bad_amp = vec![text("x"), text("sine"), LispArg::Number(440.0), LispArg::Other];
    assert_eq!(lisp_new_osc(&mut tree, &bad_amp), Err("Invalid float".to_string()));
    assert_eq!(tree.node_count(), 1);
    assert_eq!(tree.lookup("x"), None);
}

#[test]
fn mod_command() {
    let mut tree = NodeTree::<f32>::new();
    assert_eq!(lisp_new_mod(&mut tree, &vec![text("m"), LispArg::Number(0.7)]), Ok("Modulator added !".to_string()));
    assert_eq!(lisp_new_mod(&mut tree, &vec![LispArg::Other]), Err("Invalid string".to_string()));
    assert_eq!(lisp_new_mod(&mut tree, &vec![text("n"), text("0.7")]), Err("Invalid float".to_string()));
    match tree.node(tree.lookup("m").unwrap()) {
        Node::ModNode(m) => {
            assert_eq!(m.mod_index, 0.7);
            assert!(m.oscs.is_empty());
        }
        _ => panic!(),
    }
    assert_eq!(tree.lookup("n"), None);
}

#[test]
fn route_command() {
    let mut tree = NodeTree::<f32>::new();
    lisp_new_osc(&mut tree, &vec![text("a"), text("saw"), LispArg::Number(50.0), LispArg::Number(1.0)]).unwrap();
    assert_eq!(lisp_route_node(&mut tree, &vec![text("a"), text("process")]), Ok("Nodes routed !".to_string()));
    assert_eq!(tree.compile(), tree.lookup("a"));
    assert_eq!(lisp_route_node(&mut tree, &vec![text("a"), LispArg::Number(3.0)]), Err("Invalid string".to_string()));
}

#[test]
fn failing_calls_are_recognised() {
    let none: Vec<LispArg<f32>> = vec![];
    assert!(osc_args_fail(&none));
    assert!(osc_args_fail(&vec![text("a")]));
    assert!(osc_args_fail(&vec![text("a"), text("sine"), LispArg::Number(1.0)]));
    assert!(osc_args_fail(&vec![text("a"), text("noise"), LispArg::Number(1.0), LispArg::Number(1.0)]));
    assert!(!osc_args_fail(&vec![text("a"), text("noise"), LispArg::Number(1.0), LispArg::Other]));
    assert!(!osc_args_fail(&vec![LispArg::<f32>::Other]));
    assert!(!osc_args_fail(&vec![text("a"), text("SAW"), LispArg::Number(1.0), LispArg::Number(1.0)]));
    assert!(mod_args_fail(&none));
    assert!(mod_args_fail(&vec![text("m")]));
    assert!(!mod_args_fail(&vec![LispArg::Number(1.0)]));
    assert!(!mod_args_fail(&vec![text("m"), LispArg::Other]));
    let mut tree = NodeTree::<f32>::new();
    tree.new_osc("a".to_string(), Waveform::Sine, 1.0, 1.0);
    assert!(route_args_fail(&tree, &none));
    assert!(route_args_fail(&tree, &vec![text("a")]));
    assert!(route_args_fail(&tree, &vec![text("b"), text("process")]));
    assert!(route_args_fail(&tree, &vec![text("process"), text("a")]));
    assert!(!route_args_fail(&tree, &vec![text("a"), text("process")]));
    assert!(!route_args_fail(&tree, &vec![text("a"), LispArg::Other]));
}
