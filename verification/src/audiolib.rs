//! Nodes of the synthesis graph and the routing between them.

use vstd::prelude::*;

use crate::dsp::env::{Env, EnvView};
use crate::dsp::modulation::{OscModulator, OscModulatorView};
use crate::dsp::oscillators::{Oscillator, OscillatorView};

verus! {

/// A node of the synthesis graph.
#[derive(Clone, Debug)]
pub enum Node<S> {
    OscNode(Oscillator<S>),
    ModNode(OscModulator<S>),
    ProcessNode(ProcessNode),
    EnvNode(Env),
}

/// The mathematical value of a [`Node`].
pub enum NodeView<S> {
    Osc(OscillatorView<S>),
    Mod(OscModulatorView<S>),
    Process(ProcessNode),
    Env(EnvView),
}

impl<S> View for Node<S> {
    type V = NodeView<S>;

    open spec fn view(&self) -> NodeView<S> {
        match self {
            Node::OscNode(o) => NodeView::Osc(o@),
            Node::ModNode(m) => NodeView::Mod(m@),
            Node::ProcessNode(p) => NodeView::Process(*p),
            Node::EnvNode(e) => NodeView::Env(e@),
        }
    }
}

impl<S> NodeView<S> {
    /// The node after `source` is routed into it. Routing into an
    /// oscillator is refused by the callers and leaves it as it is.
    pub open spec fn routed(self, source: usize) -> NodeView<S> {
        match self {
            NodeView::Osc(o) => NodeView::Osc(o),
            NodeView::Mod(m) => NodeView::Mod(m.with_input(source)),
            NodeView::Process(p) => NodeView::Process(ProcessNode { input_node: Some(source), host_attached: p.host_attached }),
            NodeView::Env(e) => NodeView::Env(EnvView { label: e.label, source: Some(source) }),
        }
    }

    /// The node with its frequency set to `freq`, if it is an oscillator.
    pub open spec fn with_frequency(self, freq: S) -> NodeView<S> {
        match self {
            NodeView::Osc(o) => NodeView::Osc(
                OscillatorView {
                    label: o.label,
                    waveform: o.waveform,
                    frequency_hz: freq,
                    amplitude: o.amplitude,
                },
            ),
            other => other,
        }
    }

    /// The node with nothing routed into it, if it is an output node.
    pub open spec fn cleared(self) -> NodeView<S> {
        match self {
            NodeView::Process(p) => NodeView::Process(ProcessNode { input_node: None, host_attached: p.host_attached }),
            other => other,
        }
    }

    /// The node after it has been given the audio host's settings, if it is
    /// an output node.
    pub open spec fn attached(self) -> NodeView<S> {
        match self {
            NodeView::Process(p) => NodeView::Process(ProcessNode { input_node: p.input_node, host_attached: true }),
            other => other,
        }
    }

    /// What the node streams when it is an output node.
    pub open spec fn stream_input(self) -> Option<usize> {
        match self {
            NodeView::Process(p) => p.input_node,
            _ => None,
        }
    }

    /// Every node that this node reads from lies below `bound`.
    pub open spec fn inputs_below(self, bound: int) -> bool {
        match self {
            NodeView::Osc(_) => true,
            NodeView::Mod(m) => forall|k: int| 0 <= k < m.oscs.len() ==> (#[trigger] m.oscs[k]) < bound,
            NodeView::Process(p) => p.input_node matches Some(i) ==> i < bound,
            NodeView::Env(e) => e.source matches Some(i) ==> i < bound,
        }
    }
}

/// The output node: the node routed into it is what the audio stream plays,
/// once the node has been given the audio host's settings.
#[derive(Clone, Copy, Debug, PartialEq, Eq, Structural)]
pub struct ProcessNode {
    pub input_node: Option<usize>,
    pub host_attached: bool,
}

impl View for ProcessNode {
    type V = ProcessNode;

    open spec fn view(&self) -> ProcessNode {
        *self
    }
}

impl ProcessNode {
    /// An output node reading from `source`.
    pub fn new(source: Option<usize>, host_attached: bool) -> (p: ProcessNode)
        ensures
            p == (ProcessNode { input_node: source, host_attached }),
    {
        ProcessNode { input_node: source, host_attached }
    }

    /// Gives the node the audio host's settings.
    pub fn context(&mut self)
        ensures
            *final(self) == (ProcessNode { input_node: old(self).input_node, host_attached: true }),
    {
        self.host_attached = true;
    }
}

impl Routable for ProcessNode {
    open spec fn routed(v: ProcessNode, node: usize) -> ProcessNode {
        ProcessNode { input_node: Some(node), host_attached: v.host_attached }
    }

    fn route(&mut self, node: usize) {
        self.input_node = Some(node);
    }
}

/// A node that other nodes can be routed into.
pub trait Routable: View + Sized {
    /// The value of the node after `node` is routed into it.
    spec fn routed(v: Self::V, node: usize) -> Self::V;

    /// Routes `node` into this one.
    fn route(&mut self, node: usize)
        ensures
            final(self)@ == Self::routed(old(self)@, node),
    ;
}

} // verus!
