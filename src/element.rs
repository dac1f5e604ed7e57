//! Elements: a tag marker, a statically typed chain of attributes and a
//! children slot, rendered through the attribute lifecycle.

use vstd::prelude::*;
use crate::attribute::{markup, Attribute, NextAttribute};
use crate::renderer::{Dom, NodeId};

verus! {

/// Marks an element kind that may hold content.
pub trait ElementWithChildren {}

/// The `div` element.
#[derive(Debug, Clone, Copy, PartialEq, Eq)]
pub struct Div;

/// The `span` element.
#[derive(Debug, Clone, Copy, PartialEq, Eq)]
pub struct Span;

impl ElementWithChildren for Div {}

impl ElementWithChildren for Span {}

/// An element of kind `E` with attribute chain `At` and children `Ch`.
/// Adding an attribute yields a new element whose chain is one longer.
#[derive(Debug, Clone)]
pub struct HtmlElement<E, At, Ch> {
    pub tag: E,
    pub attributes: At,
    pub children: Ch,
}

/// What a rendered element keeps between renders: its node and the state of
/// its attributes.
pub struct ElementState<S> {
    pub el: NodeId,
    pub attrs: S,
}

/// A `div` with no attributes and no children.
pub fn div() -> (r: HtmlElement<Div, (), ()>)
    ensures
        r.attributes == (),
        r.children == (),
{
    HtmlElement { tag: Div, attributes: (), children: () }
}

/// A `span` with no attributes and no children.
pub fn span() -> (r: HtmlElement<Span, (), ()>)
    ensures
        r.attributes == (),
        r.children == (),
{
    HtmlElement { tag: Span, attributes: (), children: () }
}

impl<E, At: NextAttribute, Ch> HtmlElement<E, At, Ch> {
    /// This element with `attr` chained after its attributes.
    pub fn add_any_attr<N: Attribute>(self, attr: N) -> (r: HtmlElement<E, (At, N), Ch>)
        ensures
            r.tag == self.tag,
            r.attributes == (self.attributes, attr),
            r.children == self.children,
    {
        let HtmlElement { tag, attributes, children } = self;
        HtmlElement { tag, attributes: attributes.add_any_attr(attr), children }
    }
}

impl<E, At: Attribute> HtmlElement<E, At, ()> {
    /// Serialises the attributes into the four markup buffers, in order.
    pub fn to_html(
        self,
        buf: &mut String,
        class: &mut String,
        style: &mut String,
        inner_html: &mut String,
    )
        ensures
            markup(final(buf)@, final(class)@, final(style)@, final(inner_html)@)
                == self.attributes.html_spec(
                markup(old(buf)@, old(class)@, old(style)@, old(inner_html)@),
            ),
    {
        self.attributes.to_html(buf, class, style, inner_html);
    }

    /// Creates a node for this element and applies every attribute to it.
    pub fn build(self, dom: &mut Dom) -> (s: ElementState<At::State>)
        ensures
            s.el.index == old(dom)@.nodes.len(),
            final(dom)@ == self.attributes.apply(old(dom)@.with_new_node(), s.el),
            final(dom)@.nodes.len() == old(dom)@.nodes.len() + 1,
            self.attributes.records(s.attrs),
            At::nodes_of(s.attrs).subset_of(set![s.el]),
    {
        let el = dom.create_element();
        let attrs = self.attributes.build(dom, el);
        ElementState { el, attrs }
    }

    /// Attaches this element to `el`, whose markup already exists, without
    /// writing to it.
    pub fn hydrate<const FROM_SERVER: bool>(self, el: NodeId) -> (s: ElementState<At::State>)
        ensures
            s.el == el,
            self.attributes.records(s.attrs),
            At::nodes_of(s.attrs).subset_of(set![el]),
    {
        let attrs = self.attributes.hydrate::<FROM_SERVER>(el);
        ElementState { el, attrs }
    }

    /// Brings the element's node up to date with these attributes, writing
    /// only the ones whose value changed.
    pub fn rebuild(self, dom: &mut Dom, state: &mut ElementState<At::State>)
        requires
            old(dom)@.has(old(state).el),
            At::nodes_of(old(state).attrs).subset_of(set![old(state).el]),
        ensures
            final(dom)@ == self.attributes.refresh(old(dom)@, old(state).attrs),
            final(dom)@.nodes.len() == old(dom)@.nodes.len(),
            final(state).el == old(state).el,
            self.attributes.records(final(state).attrs),
            At::nodes_of(final(state).attrs) == At::nodes_of(old(state).attrs),
    {
        proof {
            assert forall|n: NodeId| #[trigger] At::nodes_of(state.attrs).contains(n) implies dom@.has(n) by {
                assert(set![state.el].contains(n));
            }
        }
        self.attributes.rebuild(dom, &mut state.attrs);
    }
}

} // verus!
