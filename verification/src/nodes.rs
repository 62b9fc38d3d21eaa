use vstd::prelude::*;

use crate::bus::{NodeKind, NodeSink, NodeSource};
use crate::gate::Logic;
use crate::sources::view_names;
use crate::span::Span;

verus! {

/// The configuration of a node: its name and the sinks it drives.
pub struct NodeView {
    pub name: Seq<char>,
    pub sinks: Seq<Seq<char>>,
}

/// A logic NOT gate: emits `On` when **all** inputs are `Off`, and `Off`
/// when **any** input is `On`.  Emits `On` at startup (no inputs: all off).
pub struct Not {
    name: String,
    sinks: Vec<String>,
}

/// A logic AND gate: emits `On` when **all** inputs are `On`, and `Off`
/// as soon as **any** input is `Off`.  Starts `Off` and does not emit
/// until the first message is received.
pub struct And {
    name: String,
    sinks: Vec<String>,
}

/// A logic OR gate: emits `On` when **any** input is `On`, and `Off` when
/// **all** inputs are `Off`.  Starts `Off` and does not emit until the
/// first message is received.
pub struct Or {
    name: String,
    sinks: Vec<String>,
}

/// A logic XOR gate: emits `On` when an **odd** number of inputs are
/// `On`, `Off` otherwise.  Starts `Off` and does not emit until the first
/// message is received.
pub struct Xor {
    name: String,
    sinks: Vec<String>,
}

impl View for Not {
    type V = NodeView;

    closed spec fn view(&self) -> NodeView {
        NodeView { name: self.name@, sinks: view_names(self.sinks@) }
    }
}

impl View for And {
    type V = NodeView;

    closed spec fn view(&self) -> NodeView {
        NodeView { name: self.name@, sinks: view_names(self.sinks@) }
    }
}

impl View for Or {
    type V = NodeView;

    closed spec fn view(&self) -> NodeView {
        NodeView { name: self.name@, sinks: view_names(self.sinks@) }
    }
}

impl View for Xor {
    type V = NodeView;

    closed spec fn view(&self) -> NodeView {
        NodeView { name: self.name@, sinks: view_names(self.sinks@) }
    }
}

impl Not {
    pub fn new(name: String, sinks: Vec<String>) -> (n: Self)
        ensures
            n@ == (NodeView { name: name@, sinks: view_names(sinks@) }),
    {
        Not { name, sinks }
    }

    /// Split into connected sink and source halves: the sink half takes
    /// the node's inputs, the source half drives its sinks.
    pub fn split(self) -> (halves: (NodeSink, NodeSource))
        ensures
            halves.0.name@ == self@.name,
            halves.0.kind == NodeKind::Logic(Logic::Not),
            halves.1.name@ == self@.name,
            view_names(halves.1.sinks@) == self@.sinks,
    {
        let name = self.name.clone();
        (
            NodeSink { name, kind: NodeKind::Logic(Logic::Not) },
            NodeSource { name: self.name, sinks: self.sinks },
        )
    }
}

impl And {
    pub fn new(name: String, sinks: Vec<String>) -> (n: Self)
        ensures
            n@ == (NodeView { name: name@, sinks: view_names(sinks@) }),
    {
        And { name, sinks }
    }

    /// Split into connected sink and source halves: the sink half takes
    /// the node's inputs, the source half drives its sinks.
    pub fn split(self) -> (halves: (NodeSink, NodeSource))
        ensures
            halves.0.name@ == self@.name,
            halves.0.kind == NodeKind::Logic(Logic::And),
            halves.1.name@ == self@.name,
            view_names(halves.1.sinks@) == self@.sinks,
    {
        let name = self.name.clone();
        (
            NodeSink { name, kind: NodeKind::Logic(Logic::And) },
            NodeSource { name: self.name, sinks: self.sinks },
        )
    }
}

impl Or {
    pub fn new(name: String, sinks: Vec<String>) -> (n: Self)
        ensures
            n@ == (NodeView { name: name@, sinks: view_names(sinks@) }),
    {
        Or { name, sinks }
    }

    /// Split into connected sink and source halves: the sink half takes
    /// the node's inputs, the source half drives its sinks.
    pub fn split(self) -> (halves: (NodeSink, NodeSource))
        ensures
            halves.0.name@ == self@.name,
            halves.0.kind == NodeKind::Logic(Logic::Or),
            halves.1.name@ == self@.name,
            view_names(halves.1.sinks@) == self@.sinks,
    {
        let name = self.name.clone();
        (
            NodeSink { name, kind: NodeKind::Logic(Logic::Or) },
            NodeSource { name: self.name, sinks: self.sinks },
        )
    }
}

impl Xor {
    pub fn new(name: String, sinks: Vec<String>) -> (n: Self)
        ensures
            n@ == (NodeView { name: name@, sinks: view_names(sinks@) }),
    {
        Xor { name, sinks }
    }

    /// Split into connected sink and source halves: the sink half takes
    /// the node's inputs, the source half drives its sinks.
    pub fn split(self) -> (halves: (NodeSink, NodeSource))
        ensures
            halves.0.name@ == self@.name,
            halves.0.kind == NodeKind::Logic(Logic::Xor),
            halves.1.name@ == self@.name,
            view_names(halves.1.sinks@) == self@.sinks,
    {
        let name = self.name.clone();
        (
            NodeSink { name, kind: NodeKind::Logic(Logic::Xor) },
            NodeSource { name: self.name, sinks: self.sinks },
        )
    }
}

/// The configuration of a turn-on delay node.
pub struct DelayNodeView {
    pub name: Seq<char>,
    pub delay: nat,
    pub sinks: Seq<Seq<char>>,
}

/// A turn-on delay gate: emits `On` only after at least one input has been
/// continuously `On` for the configured delay, and `Off` immediately when
/// all inputs go `Off`.  See [`DelayGate`].
pub struct Delay {
    name: String,
    delay: Span,
    sinks: Vec<String>,
}

impl View for Delay {
    type V = DelayNodeView;

    closed spec fn view(&self) -> DelayNodeView {
        DelayNodeView { name: self.name@, delay: self.delay@, sinks: view_names(self.sinks@) }
    }
}

impl Delay {
    pub closed spec fn wf(&self) -> bool {
        self.delay.wf()
    }

    pub fn new(name: String, delay: Span, sinks: Vec<String>) -> (d: Self)
        requires
            delay.wf(),
        ensures
            d.wf(),
            d@ == (DelayNodeView { name: name@, delay: delay@, sinks: view_names(sinks@) }),
    {
        Delay { name, delay, sinks }
    }

    /// Split into connected sink and source halves: the sink half takes
    /// the node's inputs and runs the delay, the source half drives its
    /// sinks.
    pub fn split(self) -> (halves: (NodeSink, NodeSource))
        ensures
            halves.0.name@ == self@.name,
            halves.0.kind matches NodeKind::Delay(d) && d@ == self@.delay && (self.wf()
                ==> d.wf()),
            halves.1.name@ == self@.name,
            view_names(halves.1.sinks@) == self@.sinks,
    {
        let name = self.name.clone();
        (
            NodeSink { name, kind: NodeKind::Delay(self.delay) },
            NodeSource { name: self.name, sinks: self.sinks },
        )
    }
}

} // verus!
