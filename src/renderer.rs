//! A document of nodes kept in a table and addressed by index, with a log of
//! every write made to a node's content or class.

use vstd::prelude::*;

verus! {

/// Handle to a node of a `Dom`: its position in the document's node table.
/// Handles are cheap copies; the document owns the nodes.
#[derive(Clone, Copy, Debug, PartialEq, Eq, Structural)]
pub struct NodeId {
    pub index: usize,
}

/// The properties of a node that attributes write.
pub struct Node {
    pub inner_html: String,
    pub class_name: String,
}

/// Mathematical model of a node.
pub struct NodeView {
    pub inner_html: Seq<char>,
    pub class_name: Seq<char>,
}

/// Mathematical model of a document: its nodes, and the nodes written to,
/// one entry per write, oldest first.
pub struct DomView {
    pub nodes: Seq<NodeView>,
    pub writes: Seq<NodeId>,
}

impl View for Node {
    type V = NodeView;

    open spec fn view(&self) -> NodeView {
        NodeView { inner_html: self.inner_html@, class_name: self.class_name@ }
    }
}

impl DomView {
    /// The handle names a node of this document.
    pub open spec fn has(self, el: NodeId) -> bool {
        el.index < self.nodes.len()
    }

    pub open spec fn inner_html_of(self, el: NodeId) -> Seq<char> {
        self.nodes[el.index as int].inner_html
    }

    pub open spec fn class_name_of(self, el: NodeId) -> Seq<char> {
        self.nodes[el.index as int].class_name
    }

    /// How many writes have been made to this document's nodes.
    pub open spec fn write_count(self) -> nat {
        self.writes.len()
    }

    /// The document after adding a node with empty content and no class.
    pub open spec fn with_new_node(self) -> DomView {
        DomView {
            nodes: self.nodes.push(NodeView { inner_html: Seq::empty(), class_name: Seq::empty() }),
            writes: self.writes,
        }
    }

    /// The document after writing `html` as the content of `el`.
    pub open spec fn with_inner_html(self, el: NodeId, html: Seq<char>) -> DomView {
        DomView {
            nodes: self.nodes.update(
                el.index as int,
                NodeView { inner_html: html, class_name: self.class_name_of(el) },
            ),
            writes: self.writes.push(el),
        }
    }

    /// The document after writing `class` as the class list of `el`.
    pub open spec fn with_class_name(self, el: NodeId, class: Seq<char>) -> DomView {
        DomView {
            nodes: self.nodes.update(
                el.index as int,
                NodeView { inner_html: self.inner_html_of(el), class_name: class },
            ),
            writes: self.writes.push(el),
        }
    }
}

/// A document: a table of nodes and the log of writes made to them.
pub struct Dom {
    nodes: Vec<Node>,
    writes: Vec<NodeId>,
}

impl View for Dom {
    type V = DomView;

    closed spec fn view(&self) -> DomView {
        DomView { nodes: self.nodes@.map_values(|n: Node| n@), writes: self.writes@ }
    }
}

impl Dom {
    /// An empty document, with no nodes and no writes.
    pub fn new() -> (r: Dom)
        ensures
            r@.nodes.len() == 0,
            r@.writes.len() == 0,
    {
        Dom { nodes: Vec::new(), writes: Vec::new() }
    }

    /// Adds a node with empty content and no class. This is not a write.
    pub fn create_element(&mut self) -> (r: NodeId)
        ensures
            r.index == old(self)@.nodes.len(),
            final(self)@ == old(self)@.with_new_node(),
    {
        let r = NodeId { index: self.nodes.len() };
        self.nodes.push(Node { inner_html: String::new(), class_name: String::new() });
        proof {
            assert(self@.nodes =~= old(self)@.with_new_node().nodes);
        }
        r
    }

    /// Writes `html` as the content of `el`, verbatim.
    pub fn set_inner_html(&mut self, el: NodeId, html: &str)
        requires
            old(self)@.has(el),
        ensures
            final(self)@ == old(self)@.with_inner_html(el, html@),
    {
        let class_name = self.nodes[el.index].class_name.clone();
        let node = Node { inner_html: String::from_str(html), class_name };
        self.nodes.set(el.index, node);
        self.writes.push(el);
        proof {
            assert(self@.nodes =~= old(self)@.with_inner_html(el, html@).nodes);
        }
    }

    /// Writes `class` as the class list of `el`.
    pub fn set_class_name(&mut self, el: NodeId, class: &str)
        requires
            old(self)@.has(el),
        ensures
            final(self)@ == old(self)@.with_class_name(el, class@),
    {
        let inner_html = self.nodes[el.index].inner_html.clone();
        let node = Node { inner_html, class_name: String::from_str(class) };
        self.nodes.set(el.index, node);
        self.writes.push(el);
        proof {
            assert(self@.nodes =~= old(self)@.with_class_name(el, class@).nodes);
        }
    }

    /// The content of `el`.
    pub fn inner_html(&self, el: NodeId) -> (r: String)
        requires
            self@.has(el),
        ensures
            r@ == self@.inner_html_of(el),
    {
        self.nodes[el.index].inner_html.clone()
    }

    /// The class list of `el`.
    pub fn class_name(&self, el: NodeId) -> (r: String)
        requires
            self@.has(el),
        ensures
            r@ == self@.class_name_of(el),
    {
        self.nodes[el.index].class_name.clone()
    }

    /// How many writes have been made to this document's nodes.
    pub fn write_count(&self) -> (r: usize)
        ensures
            r == self@.write_count(),
    {
        self.writes.len()
    }

    /// How many nodes the document holds.
    pub fn len(&self) -> (r: usize)
        ensures
            r == self@.nodes.len(),
    {
        self.nodes.len()
    }
}

} // verus!
