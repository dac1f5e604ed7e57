//! The lifecycle that every attribute implements, and chaining of attributes
//! into statically typed pairs.

use vstd::prelude::*;
use vstd::string::*;
use crate::renderer::{Dom, DomView, NodeId};

verus! {

/// Model of the four markup buffers that server rendering fills for one
/// element: its content, its class list, its inline style and its inner
/// markup.
pub struct Markup {
    pub content: Seq<char>,
    pub class: Seq<char>,
    pub style: Seq<char>,
    pub inner_html: Seq<char>,
}

/// The model of four buffers, in the order `to_html` takes them.
pub open spec fn markup(
    content: Seq<char>,
    class: Seq<char>,
    style: Seq<char>,
    inner_html: Seq<char>,
) -> Markup {
    Markup { content, class, style, inner_html }
}

impl DomView {
    /// Every node in `ns` belongs to this document.
    pub open spec fn has_all(self, ns: Set<NodeId>) -> bool {
        forall|n: NodeId| #[trigger] ns.contains(n) ==> self.has(n)
    }
}

/// An attribute: a value that can be serialised into markup, applied to a
/// fresh node, attached to a node whose markup already exists, and
/// re-applied when it changes.
///
/// Each lifecycle operation consumes the attribute value. `build` and
/// `hydrate` produce the state that `rebuild` later updates in place.
pub trait Attribute: Sized {
    /// What the attribute keeps between renders.
    type State;

    /// The buffers after serialising this attribute onto `m`.
    spec fn html_spec(&self, m: Markup) -> Markup;

    /// The document after applying this attribute to `el`.
    spec fn apply(&self, dom: DomView, el: NodeId) -> DomView;

    /// The document after re-applying this attribute over `state`: only what
    /// differs from the recorded values is written again.
    spec fn refresh(&self, dom: DomView, state: Self::State) -> DomView;

    /// `state` holds this attribute's values as the last ones applied.
    spec fn records(&self, state: Self::State) -> bool;

    /// The nodes that `state` refers to.
    spec fn nodes_of(state: Self::State) -> Set<NodeId>;

    /// Rebuilding over a state that already records this attribute writes
    /// nothing.
    proof fn lemma_refresh_current(&self, dom: DomView, state: Self::State)
        requires
            self.records(state),
        ensures
            self.refresh(dom, state) == dom,
    ;

    /// Appends this attribute's effect to the buffer it belongs in.
    fn to_html(
        self,
        buf: &mut String,
        class: &mut String,
        style: &mut String,
        inner_html: &mut String,
    )
        ensures
            markup(final(buf)@, final(class)@, final(style)@, final(inner_html)@)
                == self.html_spec(markup(old(buf)@, old(class)@, old(style)@, old(inner_html)@)),
    ;

    /// Records state for a node whose markup already shows this attribute,
    /// without writing to it.
    fn hydrate<const FROM_SERVER: bool>(self, el: NodeId) -> (s: Self::State)
        ensures
            self.records(s),
            Self::nodes_of(s).subset_of(set![el]),
    ;

    /// Applies this attribute to the fresh node `el`.
    fn build(self, dom: &mut Dom, el: NodeId) -> (s: Self::State)
        requires
            old(dom)@.has(el),
        ensures
            final(dom)@ == self.apply(old(dom)@, el),
            final(dom)@.nodes.len() == old(dom)@.nodes.len(),
            self.records(s),
            Self::nodes_of(s).subset_of(set![el]),
    ;

    /// Brings the node up to date with this attribute's value, writing only
    /// what changed.
    fn rebuild(self, dom: &mut Dom, state: &mut Self::State)
        requires
            old(dom)@.has_all(Self::nodes_of(*old(state))),
        ensures
            final(dom)@ == self.refresh(old(dom)@, *old(state)),
            final(dom)@.nodes.len() == old(dom)@.nodes.len(),
            self.records(*final(state)),
            Self::nodes_of(*final(state)) == Self::nodes_of(*old(state)),
    ;
}

/// An attribute, or a chain of them, that one more attribute can follow.
pub trait NextAttribute: Sized {
    /// Chains `new_attr` after `self`; both are kept, in that order.
    fn add_any_attr<N: Attribute>(self, new_attr: N) -> (r: (Self, N))
        ensures
            r == (self, new_attr),
    ;
}

/// The empty chain: an element with no attributes.
impl Attribute for () {
    type State = ();

    open spec fn html_spec(&self, m: Markup) -> Markup {
        m
    }

    open spec fn apply(&self, dom: DomView, el: NodeId) -> DomView {
        dom
    }

    open spec fn refresh(&self, dom: DomView, state: ()) -> DomView {
        dom
    }

    open spec fn records(&self, state: ()) -> bool {
        true
    }

    open spec fn nodes_of(state: ()) -> Set<NodeId> {
        Set::empty()
    }

    proof fn lemma_refresh_current(&self, dom: DomView, state: ()) {
    }

    fn to_html(
        self,
        buf: &mut String,
        class: &mut String,
        style: &mut String,
        inner_html: &mut String,
    ) {
    }

    fn hydrate<const FROM_SERVER: bool>(self, el: NodeId) -> (s: ()) {
        ()
    }

    fn build(self, dom: &mut Dom, el: NodeId) -> (s: ()) {
        ()
    }

    fn rebuild(self, dom: &mut Dom, state: &mut ()) {
    }
}

impl NextAttribute for () {
    fn add_any_attr<N: Attribute>(self, new_attr: N) -> (r: ((), N)) {
        (self, new_attr)
    }
}

/// A chain: the first member is applied, then the second, each with its own
/// state.
impl<A: Attribute, B: Attribute> Attribute for (A, B) {
    type State = (A::State, B::State);

    open spec fn html_spec(&self, m: Markup) -> Markup {
        self.1.html_spec(self.0.html_spec(m))
    }

    open spec fn apply(&self, dom: DomView, el: NodeId) -> DomView {
        self.1.apply(self.0.apply(dom, el), el)
    }

    open spec fn refresh(&self, dom: DomView, state: (A::State, B::State)) -> DomView {
        self.1.refresh(self.0.refresh(dom, state.0), state.1)
    }

    open spec fn records(&self, state: (A::State, B::State)) -> bool {
        self.0.records(state.0) && self.1.records(state.1)
    }

    open spec fn nodes_of(state: (A::State, B::State)) -> Set<NodeId> {
        A::nodes_of(state.0) + B::nodes_of(state.1)
    }

    proof fn lemma_refresh_current(&self, dom: DomView, state: (A::State, B::State)) {
        self.0.lemma_refresh_current(dom, state.0);
        self.1.lemma_refresh_current(dom, state.1);
    }

    fn to_html(
        self,
        buf: &mut String,
        class: &mut String,
        style: &mut String,
        inner_html: &mut String,
    ) {
        let (a, b) = self;
        a.to_html(buf, class, style, inner_html);
        b.to_html(buf, class, style, inner_html);
    }

    fn hydrate<const FROM_SERVER: bool>(self, el: NodeId) -> (s: (A::State, B::State)) {
        let (a, b) = self;
        let sa = a.hydrate::<FROM_SERVER>(el);
        let sb = b.hydrate::<FROM_SERVER>(el);
        (sa, sb)
    }

    fn build(self, dom: &mut Dom, el: NodeId) -> (s: (A::State, B::State)) {
        let (a, b) = self;
        let sa = a.build(dom, el);
        let sb = b.build(dom, el);
        (sa, sb)
    }

    fn rebuild(self, dom: &mut Dom, state: &mut (A::State, B::State)) {
        let (a, b) = self;
        proof {
            assert forall|n: NodeId| #[trigger] A::nodes_of(state.0).contains(n) implies dom@.has(n) by {
                assert(Self::nodes_of(*state).contains(n));
            }
            assert forall|n: NodeId| #[trigger] B::nodes_of(state.1).contains(n) implies dom@.has(n) by {
                assert(Self::nodes_of(*state).contains(n));
            }
        }
        a.rebuild(dom, &mut state.0);
        b.rebuild(dom, &mut state.1);
    }
}

impl<A: Attribute, B: Attribute> NextAttribute for (A, B) {
    fn add_any_attr<N: Attribute>(self, new_attr: N) -> (r: ((A, B), N)) {
        (self, new_attr)
    }
}

} // verus!
