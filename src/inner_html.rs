//! The raw-markup attribute: sets an element's content to a string of markup.
//!
//! The value is written verbatim and never escaped. Markup that comes from an
//! untrusted source must be sanitised before it reaches this attribute, or it
//! becomes an injection into the rendered page.

use vstd::prelude::*;
use vstd::string::*;
use crate::attribute::{markup, Attribute, Markup, NextAttribute};
use crate::element::{ElementWithChildren, HtmlElement};
use crate::renderer::{Dom, DomView, NodeId};

verus! {

/// Raw markup to set as an element's content, unescaped.
#[derive(Debug, Clone)]
pub struct InnerHtml {
    value: String,
}

impl View for InnerHtml {
    type V = Seq<char>;

    closed spec fn view(&self) -> Seq<char> {
        self.value@
    }
}

/// The raw-markup attribute with content `value`. `value` is trusted: it is
/// written into the element as it is.
pub fn inner_html(value: String) -> (r: InnerHtml)
    ensures
        r@ == value@,
{
    InnerHtml { value }
}

impl InnerHtml {
    /// The smallest number of characters this attribute adds to serialised
    /// markup.
    pub const MIN_LENGTH: usize = 0;

    /// The markup this attribute sets.
    pub fn value(&self) -> (r: &str)
        ensures
            r@ == self@,
    {
        self.value.as_str()
    }
}

impl Attribute for InnerHtml {
    /// The node written to, and the markup last written to it.
    type State = (NodeId, String);

    open spec fn html_spec(&self, m: Markup) -> Markup {
        markup(m.content, m.class, m.style, m.inner_html + self@)
    }

    open spec fn apply(&self, dom: DomView, el: NodeId) -> DomView {
        dom.with_inner_html(el, self@)
    }

    open spec fn refresh(&self, dom: DomView, state: (NodeId, String)) -> DomView {
        if state.1@ == self@ {
            dom
        } else {
            dom.with_inner_html(state.0, self@)
        }
    }

    open spec fn records(&self, state: (NodeId, String)) -> bool {
        state.1@ == self@
    }

    open spec fn nodes_of(state: (NodeId, String)) -> Set<NodeId> {
        set![state.0]
    }

    proof fn lemma_refresh_current(&self, dom: DomView, state: (NodeId, String)) {
    }

    fn to_html(
        self,
        buf: &mut String,
        class: &mut String,
        style: &mut String,
        inner_html: &mut String,
    ) {
        inner_html.append(self.value.as_str());
    }

    fn hydrate<const FROM_SERVER: bool>(self, el: NodeId) -> (s: (NodeId, String)) {
        (el, self.value)
    }

    fn build(self, dom: &mut Dom, el: NodeId) -> (s: (NodeId, String)) {
        dom.set_inner_html(el, self.value.as_str());
        (el, self.value)
    }

    fn rebuild(self, dom: &mut Dom, state: &mut (NodeId, String)) {
        if !(self.value == state.1) {
            proof {
                assert(Self::nodes_of(*state).contains(state.0));
            }
            dom.set_inner_html(state.0, self.value.as_str());
            state.1 = self.value;
        }
    }
}

impl NextAttribute for InnerHtml {
    fn add_any_attr<N: Attribute>(self, new_attr: N) -> (r: (InnerHtml, N)) {
        (self, new_attr)
    }
}

/// Elements that can take a raw-markup attribute.
pub trait InnerHtmlAttribute: Sized {
    /// The element with the attribute added.
    type Output;

    /// `r` is `self` followed by a raw-markup attribute whose content is
    /// `value`.
    spec fn adds_inner_html(self, value: Seq<char>, r: Self::Output) -> bool;

    /// Adds a raw-markup attribute with content `value`, which is written
    /// unescaped.
    fn inner_html(self, value: String) -> (r: Self::Output)
        ensures
            self.adds_inner_html(value@, r),
    ;
}

impl<E: ElementWithChildren, At: NextAttribute> InnerHtmlAttribute for HtmlElement<E, At, ()> {
    type Output = HtmlElement<E, (At, InnerHtml), ()>;

    open spec fn adds_inner_html(self, value: Seq<char>, r: HtmlElement<E, (At, InnerHtml), ()>) -> bool {
        &&& r.tag == self.tag
        &&& r.attributes.0 == self.attributes
        &&& r.attributes.1@ == value
    }

    fn inner_html(self, value: String) -> (r: HtmlElement<E, (At, InnerHtml), ()>) {
        self.add_any_attr(inner_html(value))
    }
}

} // verus!
