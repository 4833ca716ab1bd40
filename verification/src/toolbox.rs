//! The node tree: the labelled nodes of the synthesis graph and the
//! operations that build and rewire it.

use vstd::prelude::*;

use crate::audiolib::{Node, NodeView, ProcessNode, Routable};
use crate::dsp::modulation::{OscModulator, OscModulatorView};
use crate::dsp::oscillators::{Oscillator, OscillatorView, Waveform};

verus! {

/// A routing request from one labelled node into another.
#[derive(Clone, Debug)]
pub struct Route {
    pub source: String,
    pub destination: String,
}

impl Route {
    /// A route from `source` into `destination`.
    pub fn new(source: &str, destination: &str) -> (r: Route)
        ensures
            r.source@ == source@,
            r.destination@ == destination@,
    {
        Route { source: source.to_string(), destination: destination.to_string() }
    }
}

/// Routes `source` into `dest`.
pub fn route_node<T: Routable>(source: usize, dest: &mut T)
    ensures
        final(dest)@ == T::routed(old(dest)@, source),
{
    dest.route(source);
}

/// What the audio stream plays from a node, sample by sample.
#[derive(Clone, Debug, PartialEq, Eq)]
pub enum Playback {
    /// Nothing: the node makes no sound of its own.
    Silence,
    /// The oscillator at this place.
    Voice(usize),
    /// The oscillators at these places, in this order, folded with the
    /// modulator's index: each sample is the running sum times the index
    /// plus the next oscillator's sample.
    Blend(Vec<usize>),
}

/// The mathematical value of a [`NodeTree`]: which node each label names,
/// the nodes themselves (a node keeps its place for as long as the tree
/// lives, so that routes into it stay valid when its label is given to a
/// newer node), and the recompile flag.
pub struct TreeView<S> {
    pub labels: Map<Seq<char>, usize>,
    pub nodes: Seq<NodeView<S>>,
    pub flag: bool,
}

/// The label of the output node that every tree starts with.
pub open spec fn process_label() -> Seq<char> {
    "process"@
}

/// Whether some entry of `entries` carries the label `l`.
pub open spec fn has_entry(entries: Seq<(String, usize)>, l: Seq<char>) -> bool {
    exists|i: int| 0 <= i < entries.len() && (#[trigger] entries[i]).0@ == l
}

/// The map from labels to nodes that a table of entries stands for.
pub open spec fn label_map(entries: Seq<(String, usize)>) -> Map<Seq<char>, usize> {
    Map::new(
        |l: Seq<char>| has_entry(entries, l),
        |l: Seq<char>|
            entries[choose|i: int| 0 <= i < entries.len() && (#[trigger] entries[i]).0@ == l].1,
    )
}

/// No label occurs twice in the table.
pub open spec fn labels_unique(entries: Seq<(String, usize)>) -> bool {
    forall|i: int, j: int|
        0 <= i < entries.len() && 0 <= j < entries.len() && i != j ==> (#[trigger] entries[i]).0@
            != (#[trigger] entries[j]).0@
}

/// The value of each node of an arena.
pub open spec fn arena_view<S>(arena: Seq<Node<S>>) -> Seq<NodeView<S>> {
    arena.map_values(|n: Node<S>| n@)
}

/// The labels of `entries` and the routes of every node all name nodes of
/// the arena.
pub open spec fn refs_in_arena<S>(entries: Seq<(String, usize)>, arena: Seq<Node<S>>) -> bool {
    &&& forall|i: int| 0 <= i < entries.len() ==> (#[trigger] entries[i]).1 < arena.len()
    &&& forall|k: int| 0 <= k < arena.len() ==> (#[trigger] arena[k])@.inputs_below(arena.len() as int)
}

/// In a table without repeated labels, the map names for each entry's label
/// the entry's node.
proof fn lemma_entry_lookup(entries: Seq<(String, usize)>, i: int)
    requires
        labels_unique(entries),
        0 <= i < entries.len(),
    ensures
        label_map(entries).contains_key(entries[i].0@),
        label_map(entries)[entries[i].0@] == entries[i].1,
{
    let l = entries[i].0@;
    assert(has_entry(entries, l));
    let j = choose|j: int| 0 <= j < entries.len() && (#[trigger] entries[j]).0@ == l;
    assert(j == i);
}

/// The node tree: labelled nodes of the synthesis graph.
#[derive(Clone, Debug)]
pub struct NodeTree<S> {
    arena: Vec<Node<S>>,
    entries: Vec<(String, usize)>,
    pub flag: bool,
}

impl<S> View for NodeTree<S> {
    type V = TreeView<S>;

    closed spec fn view(&self) -> TreeView<S> {
        TreeView { labels: label_map(self.entries@), nodes: arena_view(self.arena@), flag: self.flag }
    }
}

impl<S> NodeTree<S> {
    /// The tree's invariant: labels are unique and every label and route
    /// names a node of the tree.
    pub closed spec fn wf(&self) -> bool {
        &&& labels_unique(self.entries@)
        &&& refs_in_arena(self.entries@, self.arena@)
    }

    /// Every label of a well-formed tree names one of its nodes.
    pub proof fn lemma_labels_name_nodes(&self)
        requires
            self.wf(),
        ensures
            forall|l: Seq<char>| #[trigger] self@.labels.contains_key(l) ==> self@.labels[l] < self@.nodes.len(),
    {
        assert forall|l: Seq<char>| #[trigger] self@.labels.contains_key(l) implies self@.labels[l] < self@.nodes.len() by {
            let j = choose|j: int| 0 <= j < self.entries@.len() && (#[trigger] self.entries@[j]).0@ == l;
            lemma_entry_lookup(self.entries@, j);
        }
    }

    /// Where `label` stands in the table, if it does.
    fn find(&self, label: &String) -> (r: Option<usize>)
        requires
            self.wf(),
        ensures
            match r {
                Some(i) => i < self.entries@.len() && self.entries@[i as int].0@ == label@,
                None => !self@.labels.contains_key(label@),
            },
    {
        let mut i: usize = 0;
        while i < self.entries.len()
            invariant
                i <= self.entries@.len(),
                forall|j: int| 0 <= j < i ==> (#[trigger] self.entries@[j]).0@ != label@,
            decreases self.entries@.len() - i,
        {
            if self.entries[i].0 == *label {
                return Some(i);
            }
            i = i + 1;
        }
        None
    }

    /// The node that `label` names, if any.
    pub fn lookup(&self, label: &str) -> (r: Option<usize>)
        requires
            self.wf(),
        ensures
            r == (if self@.labels.contains_key(label@) {
                Some(self@.labels[label@])
            } else {
                None::<usize>
            }),
            r matches Some(i) ==> i < self@.nodes.len(),
    {
        let key = label.to_string();
        match self.find(&key) {
            Some(i) => {
                proof {
                    lemma_entry_lookup(self.entries@, i as int);
                }
                Some(self.entries[i].1)
            },
            None => None,
        }
    }

    /// The number of nodes in the tree.
    pub fn node_count(&self) -> (n: usize)
        ensures
            n == self@.nodes.len(),
    {
        self.arena.len()
    }

    /// The node at place `id`.
    pub fn node(&self, id: usize) -> (n: &Node<S>)
        requires
            id < self@.nodes.len(),
        ensures
            n@ == self@.nodes[id as int],
    {
        &self.arena[id]
    }

    /// Adds a node at the end of the arena.
    fn push_node(&mut self, node: Node<S>)
        requires
            old(self).wf(),
            node@.inputs_below(old(self).arena@.len() as int),
        ensures
            final(self).wf(),
            final(self).entries@ == old(self).entries@,
            final(self).arena@ == old(self).arena@.push(node),
            final(self).flag == old(self).flag,
    {
        let ghost before = self.arena@;
        self.arena.push(node);
        proof {
            assert forall|k: int| 0 <= k < self.arena@.len() implies (#[trigger] self.arena@[k])@.inputs_below(
                self.arena@.len() as int,
            ) by {
                if k < before.len() {
                    assert(before[k]@.inputs_below(before.len() as int));
                }
            }
        }
    }

    /// Gives `key` to node `id`, taking it from any node that had it.
    fn bind(&mut self, key: String, id: usize)
        requires
            old(self).wf(),
            id < old(self).arena@.len(),
        ensures
            final(self).wf(),
            final(self).arena@ == old(self).arena@,
            final(self).flag == old(self).flag,
            final(self)@.labels == old(self)@.labels.insert(key@, id),
    {
        let ghost old_entries = self.entries@;
        let pos = self.find(&key);
        let ghost k = key@;
        match pos {
            Some(i) => {
                self.entries.set(i, (key, id));
            },
            None => {
                self.entries.push((key, id));
                assert(!has_entry(old_entries, k));
            },
        }
        let ghost new_entries = self.entries@;
        proof {
            assert(labels_unique(new_entries));
            let target = label_map(old_entries).insert(k, id);
            assert forall|l: Seq<char>| #[trigger] label_map(new_entries).contains_key(l) == target.contains_key(l)
                by {
                if l != k {
                    if has_entry(old_entries, l) {
                        let j = choose|j: int| 0 <= j < old_entries.len() && (#[trigger] old_entries[j]).0@ == l;
                        assert(new_entries[j] == old_entries[j]);
                        assert(has_entry(new_entries, l));
                    }
                    if has_entry(new_entries, l) {
                        let j = choose|j: int| 0 <= j < new_entries.len() && (#[trigger] new_entries[j]).0@ == l;
                        assert(new_entries[j] == old_entries[j]);
                        assert(has_entry(old_entries, l));
                    }
                } else {
                    let j = if pos is Some { pos->0 as int } else { old_entries.len() as int };
                    assert(new_entries[j].0@ == k);
                    assert(has_entry(new_entries, l));
                }
            }
            assert forall|l: Seq<char>| #[trigger] label_map(new_entries).contains_key(l) implies label_map(
                new_entries,
            )[l] == target[l] by {
                let j = choose|j: int| 0 <= j < new_entries.len() && (#[trigger] new_entries[j]).0@ == l;
                lemma_entry_lookup(new_entries, j);
                if l != k {
                    assert(new_entries[j] == old_entries[j]);
                    lemma_entry_lookup(old_entries, j);
                }
            }
            assert(label_map(new_entries) =~= target);
        }
    }

    /// A tree with one node, the output node, labelled "process", with
    /// nothing routed into it.
    pub fn new() -> (t: NodeTree<S>)
        ensures
            t.wf(),
            t@.labels == map![process_label() => 0usize],
            t@.nodes == seq![NodeView::<S>::Process(ProcessNode { input_node: None, host_attached: false })],
            !t@.flag,
    {
        let mut arena: Vec<Node<S>> = Vec::new();
        arena.push(Node::ProcessNode(ProcessNode::new(None, false)));
        let mut entries: Vec<(String, usize)> = Vec::new();
        entries.push(("process".to_string(), 0));
        let t = NodeTree { arena, entries, flag: false };
        proof {
            lemma_entry_lookup(t.entries@, 0);
            assert forall|l: Seq<char>| #[trigger] t@.labels.contains_key(l) implies l == process_label() by {
                let j = choose|j: int| 0 <= j < t.entries@.len() && (#[trigger] t.entries@[j]).0@ == l;
            }
            assert(t@.labels =~= map![process_label() => 0usize]);
            assert(t@.nodes =~= seq![NodeView::<S>::Process(ProcessNode { input_node: None, host_attached: false })]);
        }
        t
    }

    /// Adds an oscillator node and gives it `label`; a node that had the
    /// label before keeps its place but loses the label.
    pub fn new_osc(&mut self, label: String, wave: Waveform, freq: S, amp: S)
        requires
            old(self).wf(),
            old(self)@.nodes.len() < usize::MAX,
        ensures
            final(self).wf(),
            final(self)@.labels == old(self)@.labels.insert(label@, old(self)@.nodes.len() as usize),
            final(self)@.nodes == old(self)@.nodes.push(
                NodeView::Osc(OscillatorView { label: label@, waveform: wave, frequency_hz: freq, amplitude: amp }),
            ),
            final(self)@.flag == old(self)@.flag,
    {
        let key = label.clone();
        let id = self.arena.len();
        let ghost before = self.arena@;
        self.push_node(Node::OscNode(Oscillator::new(label, wave, freq, amp)));
        self.bind(key, id);
        proof {
            assert(arena_view(self.arena@) =~= arena_view(before).push(self.arena@[id as int]@));
        }
    }

    /// Sets the frequency of the oscillator that `label` names. Every route
    /// into that node sees the new frequency.
    pub fn edit_osc_freq(&mut self, label: &str, freq: S)
        requires
            old(self).wf(),
            old(self)@.labels.contains_key(label@),
            old(self)@.nodes[old(self)@.labels[label@] as int] is Osc,
        ensures
            final(self).wf(),
            final(self)@.labels == old(self)@.labels,
            final(self)@.nodes == old(self)@.nodes.update(
                old(self)@.labels[label@] as int,
                old(self)@.nodes[old(self)@.labels[label@] as int].with_frequency(freq),
            ),
            final(self)@.flag == old(self)@.flag,
    {
        let ghost before = self.arena@;
        let id = self.lookup(label).unwrap();
        match &mut self.arena[id] {
            Node::OscNode(osc) => {
                osc.frequency_hz = freq;
            },
            _ => {},
        }
        proof {
            assert(self.arena@[id as int]@ == before[id as int]@.with_frequency(freq));
            assert(arena_view(self.arena@) =~= arena_view(before).update(
                id as int,
                before[id as int]@.with_frequency(freq),
            ));
            assert forall|k: int| 0 <= k < self.arena@.len() implies (#[trigger] self.arena@[k])@.inputs_below(
                self.arena@.len() as int,
            ) by {
                assert(before[k]@.inputs_below(before.len() as int));
            }
        }
    }

    /// Adds a modulator node with no inputs and gives it `label`; a node
    /// that had the label before keeps its place but loses the label.
    pub fn new_mod(&mut self, label: String, index: S)
        requires
            old(self).wf(),
            old(self)@.nodes.len() < usize::MAX,
        ensures
            final(self).wf(),
            final(self)@.labels == old(self)@.labels.insert(label@, old(self)@.nodes.len() as usize),
            final(self)@.nodes == old(self)@.nodes.push(
                NodeView::Mod(OscModulatorView { label: label@, oscs: Seq::<usize>::empty(), mod_index: index }),
            ),
            final(self)@.flag == old(self)@.flag,
    {
        let key = label.clone();
        let id = self.arena.len();
        let ghost before = self.arena@;
        self.push_node(Node::ModNode(OscModulator::new(label, index)));
        self.bind(key, id);
        proof {
            assert(arena_view(self.arena@) =~= arena_view(before).push(self.arena@[id as int]@));
        }
    }

    /// Routes the node that `source_label` names into the node that
    /// `dest_label` names: a modulator takes it as one more input, an output
    /// node or an envelope reads from it instead of what it read before.
    pub fn route_in(&mut self, source_label: String, dest_label: String)
        requires
            old(self).wf(),
            old(self)@.labels.contains_key(source_label@),
            old(self)@.labels.contains_key(dest_label@),
            !(old(self)@.nodes[old(self)@.labels[dest_label@] as int] is Osc),
        ensures
            final(self).wf(),
            final(self)@.labels == old(self)@.labels,
            final(self)@.nodes == old(self)@.nodes.update(
                old(self)@.labels[dest_label@] as int,
                old(self)@.nodes[old(self)@.labels[dest_label@] as int].routed(
                    old(self)@.labels[source_label@],
                ),
            ),
            final(self)@.flag == old(self)@.flag,
    {
        let ghost before = self.arena@;
        let src = self.lookup(source_label.as_str()).unwrap();
        let dest = self.lookup(dest_label.as_str()).unwrap();
        match &mut self.arena[dest] {
            Node::OscNode(_) => {},
            Node::ModNode(oscmod) => route_node(src, oscmod),
            Node::ProcessNode(process) => route_node(src, process),
            Node::EnvNode(env) => route_node(src, env),
        }
        proof {
            assert(self.arena@[dest as int]@ == before[dest as int]@.routed(src));
            assert(arena_view(self.arena@) =~= arena_view(before).update(
                dest as int,
                before[dest as int]@.routed(src),
            ));
            assert forall|k: int| 0 <= k < self.arena@.len() implies (#[trigger] self.arena@[k])@.inputs_below(
                self.arena@.len() as int,
            ) by {
                assert(before[k]@.inputs_below(before.len() as int));
            }
        }
    }

    /// Takes away what is routed into the output node; every other node,
    /// and the routes into modulators, stay as they are.
    pub fn clear(&mut self)
        requires
            old(self).wf(),
            old(self)@.labels.contains_key(process_label()),
            old(self)@.nodes[old(self)@.labels[process_label()] as int] is Process,
        ensures
            final(self).wf(),
            final(self)@.labels == old(self)@.labels,
            final(self)@.nodes == old(self)@.nodes.update(
                old(self)@.labels[process_label()] as int,
                old(self)@.nodes[old(self)@.labels[process_label()] as int].cleared(),
            ),
            final(self)@.flag == old(self)@.flag,
    {
        let ghost before = self.arena@;
        let id = self.lookup("process").unwrap();
        match &mut self.arena[id] {
            Node::ProcessNode(process) => {
                process.input_node = None;
            },
            _ => {},
        }
        proof {
            assert(self.arena@[id as int]@ == before[id as int]@.cleared());
            assert(arena_view(self.arena@) =~= arena_view(before).update(id as int, before[id as int]@.cleared()));
            assert forall|k: int| 0 <= k < self.arena@.len() implies (#[trigger] self.arena@[k])@.inputs_below(
                self.arena@.len() as int,
            ) by {
                assert(before[k]@.inputs_below(before.len() as int));
            }
        }
    }

    /// Gives every labelled output node the audio host's settings and
    /// returns the node that the output node labelled "process" streams,
    /// if anything is routed into it.
    pub fn compile(&mut self) -> (r: Option<usize>)
        requires
            old(self).wf(),
            old(self)@.labels.contains_key(process_label()),
            old(self)@.nodes[old(self)@.labels[process_label()] as int] is Process,
        ensures
            final(self).wf(),
            final(self)@.labels == old(self)@.labels,
            final(self)@.flag == old(self)@.flag,
            final(self)@.nodes.len() == old(self)@.nodes.len(),
            forall|i: int|
                0 <= i < old(self)@.nodes.len() ==> #[trigger] final(self)@.nodes[i] == if old(
                    self,
                )@.labels.contains_value(i as usize) {
                    old(self)@.nodes[i].attached()
                } else {
                    old(self)@.nodes[i]
                },
            forall|i: int|
                0 <= i < old(self)@.nodes.len() && !(old(self)@.nodes[i] is Process)
                    ==> #[trigger] final(self)@.nodes[i] == old(self)@.nodes[i],
            forall|i: int|
                0 <= i < old(self)@.nodes.len() && old(self)@.nodes[i] is Process ==> {
                    &&& #[trigger] final(self)@.nodes[i] is Process
                    &&& final(self)@.nodes[i]->Process_0.input_node == old(self)@.nodes[i]->Process_0.input_node
                },
            r == old(self)@.nodes[old(self)@.labels[process_label()] as int].stream_input(),
    {
        let ghost before = self.arena@;
        let ghost entries = self.entries@;
        let ghost flag = self.flag;
        let count = self.arena.len();
        let mut k: usize = 0;
        while k < self.entries.len()
            invariant
                self.wf(),
                self.entries@ == entries,
                self.flag == flag,
                count == before.len(),
                k <= entries.len(),
                self.arena@.len() == before.len(),
                forall|i: int|
                    0 <= i < before.len() ==> #[trigger] self.arena@[i]@ == if exists|j: int|
                        0 <= j < k && (#[trigger] entries[j]).1 == i {
                        before[i]@.attached()
                    } else {
                        before[i]@
                    },
            decreases entries.len() - k,
        {
            let id = self.entries[k].1;
            let ghost mid = self.arena@;
            match &mut self.arena[id] {
                Node::ProcessNode(process) => process.context(),
                _ => {},
            }
            proof {
                assert(self.arena@[id as int]@ == mid[id as int]@.attached());
                assert forall|i: int| 0 <= i < before.len() implies #[trigger] self.arena@[i]@ == if exists|j: int|
                    0 <= j < k + 1 && (#[trigger] entries[j]).1 == i {
                    before[i]@.attached()
                } else {
                    before[i]@
                } by {
                    if i == id {
                        assert(entries[k as int].1 == i);
                    } else {
                        assert(self.arena@[i] == mid[i]);
                        if exists|j: int| 0 <= j < k + 1 && (#[trigger] entries[j]).1 == i {
                            let j = choose|j: int| 0 <= j < k + 1 && (#[trigger] entries[j]).1 == i;
                            assert(j < k);
                        }
                    }
                }
                assert forall|q: int| 0 <= q < self.arena@.len() implies (#[trigger] self.arena@[q])@.inputs_below(
                    self.arena@.len() as int,
                ) by {
                    assert(mid[q]@.inputs_below(mid.len() as int));
                }
            }
            k = k + 1;
        }
        proof {
            assert forall|i: int| #![trigger label_map(entries).contains_value(i as usize)] 0 <= i < before.len() implies (exists|j: int|
                0 <= j < entries.len() && (#[trigger] entries[j]).1 == i) == label_map(entries).contains_value(
                i as usize,
            ) by {
                if exists|j: int| 0 <= j < entries.len() && (#[trigger] entries[j]).1 == i {
                    let j = choose|j: int| 0 <= j < entries.len() && (#[trigger] entries[j]).1 == i;
                    lemma_entry_lookup(entries, j);
                    assert(label_map(entries).contains_key(entries[j].0@));
                }
                if label_map(entries).contains_value(i as usize) {
                    let l = choose|l: Seq<char>| #[trigger] label_map(entries).contains_key(l) && label_map(entries)[l] == i as usize;
                    let j = choose|j: int| 0 <= j < entries.len() && (#[trigger] entries[j]).0@ == l;
                    lemma_entry_lookup(entries, j);
                }
            }
            assert(arena_view(self.arena@).len() == before.len());
        }
        let p = self.lookup("process").unwrap();
        match &self.arena[p] {
            Node::ProcessNode(process) => process.input_node,
            _ => None,
        }
    }

    /// What the audio stream plays from node `id`: an oscillator plays
    /// itself; a modulator blends its inputs, and has none to play (`None`)
    /// when it has no input or one of its inputs is not an oscillator; any
    /// other node is silent.
    pub fn playback(&self, id: usize) -> (r: Option<Playback>)
        requires
            self.wf(),
            id < self@.nodes.len(),
        ensures
            match self@.nodes[id as int] {
                NodeView::Osc(_) => r == Some(Playback::Voice(id)),
                NodeView::Mod(m) => if m.oscs.len() > 0 && forall|k: int|
                    0 <= k < m.oscs.len() ==> self@.nodes[#[trigger] m.oscs[k] as int] is Osc {
                    r matches Some(Playback::Blend(v)) && v@ == m.oscs
                } else {
                    r is None
                },
                _ => r == Some(Playback::Silence),
            },
    {
        match &self.arena[id] {
            Node::OscNode(_) => Some(Playback::Voice(id)),
            Node::ModNode(m) => {
                if m.oscs.len() == 0 {
                    return None;
                }
                proof {
                    assert(self.arena@[id as int]@.inputs_below(self.arena@.len() as int));
                }
                let mut k: usize = 0;
                while k < m.oscs.len()
                    invariant
                        self.wf(),
                        self.arena@[id as int] == Node::ModNode(*m),
                        id < self.arena@.len(),
                        k <= m.oscs@.len(),
                        forall|q: int| 0 <= q < m.oscs@.len() ==> (#[trigger] m.oscs@[q]) < self.arena@.len(),
                        forall|q: int| 0 <= q < k ==> self@.nodes[#[trigger] m.oscs@[q] as int] is Osc,
                    decreases m.oscs@.len() - k,
                {
                    let o = m.oscs[k];
                    match &self.arena[o] {
                        Node::OscNode(_) => {},
                        _ => {
                            return None;
                        },
                    }
                    k = k + 1;
                }
                Some(Playback::Blend(m.oscs.clone()))
            },
            _ => Some(Playback::Silence),
        }
    }
}

} // verus!
