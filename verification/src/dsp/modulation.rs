//! Modulator nodes, which combine the oscillators routed into them.

use vstd::prelude::*;

use crate::audiolib::Routable;

verus! {

/// A modulator: the nodes routed into it, in routing order, and its
/// modulation index. Nodes are named by their place in the node arena of
/// a [`crate::toolbox::NodeTree`].
#[derive(Clone, Debug)]
pub struct OscModulator<S> {
    pub label: String,
    pub oscs: Vec<usize>,
    pub mod_index: S,
}

/// The mathematical value of an [`OscModulator`].
pub struct OscModulatorView<S> {
    pub label: Seq<char>,
    pub oscs: Seq<usize>,
    pub mod_index: S,
}

impl<S> View for OscModulator<S> {
    type V = OscModulatorView<S>;

    open spec fn view(&self) -> OscModulatorView<S> {
        OscModulatorView { label: self.label@, oscs: self.oscs@, mod_index: self.mod_index }
    }
}

impl<S> OscModulatorView<S> {
    /// The modulator after `node` is routed into it: the node joins the end
    /// of its inputs.
    pub open spec fn with_input(self, node: usize) -> OscModulatorView<S> {
        OscModulatorView { label: self.label, oscs: self.oscs.push(node), mod_index: self.mod_index }
    }
}

impl<S> OscModulator<S> {
    /// A modulator with no inputs yet.
    pub fn new(label: String, mod_index: S) -> (m: OscModulator<S>)
        ensures
            m@ == (OscModulatorView { label: label@, oscs: Seq::<usize>::empty(), mod_index }),
    {
        OscModulator { label, oscs: Vec::new(), mod_index }
    }
}

impl<S> Routable for OscModulator<S> {
    open spec fn routed(v: OscModulatorView<S>, node: usize) -> OscModulatorView<S> {
        v.with_input(node)
    }

    fn route(&mut self, node: usize) {
        self.oscs.push(node);
    }
}

} // verus!
