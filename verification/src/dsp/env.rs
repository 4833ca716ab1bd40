//! Envelope nodes.

use vstd::prelude::*;

use crate::audiolib::Routable;

verus! {

/// An envelope: its label and the node routed into it, if any.
#[derive(Clone, Debug)]
pub struct Env {
    pub label: String,
    pub source: Option<usize>,
}

/// The mathematical value of an [`Env`].
pub struct EnvView {
    pub label: Seq<char>,
    pub source: Option<usize>,
}

impl View for Env {
    type V = EnvView;

    open spec fn view(&self) -> EnvView {
        EnvView { label: self.label@, source: self.source }
    }
}

impl Env {
    /// An envelope with no source.
    pub fn new(label: &str) -> (e: Env)
        ensures
            e@ == (EnvView { label: label@, source: None }),
    {
        Env { label: label.to_string(), source: None }
    }
}

impl Routable for Env {
    open spec fn routed(v: EnvView, node: usize) -> EnvView {
        EnvView { label: v.label, source: Some(node) }
    }

    fn route(&mut self, node: usize) {
        self.source = Some(node);
    }
}

} // verus!
