//! The class attribute: sets an element's class list.

use vstd::prelude::*;
use vstd::string::*;
use crate::attribute::{markup, Attribute, Markup, NextAttribute};
use crate::renderer::{Dom, DomView, NodeId};

verus! {

/// A class list for an element, as one space-separated string.
#[derive(Debug, Clone)]
pub struct Class {
    value: String,
}

impl View for Class {
    type V = Seq<char>;

    closed spec fn view(&self) -> Seq<char> {
        self.value@
    }
}

/// The class attribute with class list `value`.
pub fn class(value: String) -> (r: Class)
    ensures
        r@ == value@,
{
    Class { value }
}

/// The class buffer after adding `names` to `class`: a space separates them
/// when the buffer already holds a class.
pub open spec fn class_list_push(class: Seq<char>, names: Seq<char>) -> Seq<char> {
    if class.len() == 0 {
        names
    } else {
        class + seq![' '] + names
    }
}

impl Class {
    /// The class list this attribute sets.
    pub fn value(&self) -> (r: &str)
        ensures
            r@ == self@,
    {
        self.value.as_str()
    }
}

impl Attribute for Class {
    /// The node written to, and the class list last written to it.
    type State = (NodeId, String);

    open spec fn html_spec(&self, m: Markup) -> Markup {
        markup(m.content, class_list_push(m.class, self@), m.style, m.inner_html)
    }

    open spec fn apply(&self, dom: DomView, el: NodeId) -> DomView {
        dom.with_class_name(el, self@)
    }

    open spec fn refresh(&self, dom: DomView, state: (NodeId, String)) -> DomView {
        if state.1@ == self@ {
            dom
        } else {
            dom.with_class_name(state.0, self@)
        }
    }

    open spec fn records(&self, state: (NodeId, String)) -> bool {
        state.1@ == self@
    }

    open spec fn nodes_of(state: (NodeId, String)) -> Set<NodeId> {
        set![state.0]
    }

    proof fn lemma_refresh_current(&self, dom: DomView, state: (NodeId, String)) {
    }

    fn to_html(
        self,
        buf: &mut String,
        class: &mut String,
        style: &mut String,
        inner_html: &mut String,
    ) {
        let ghost before = class@;
        if class.as_str().unicode_len() > 0 {
            proof {
                reveal_strlit(" ");
            }
            class.append(" ");
        }
        class.append(self.value.as_str());
        proof {
            assert(class@ =~= class_list_push(before, self@));
        }
    }

    fn hydrate<const FROM_SERVER: bool>(self, el: NodeId) -> (s: (NodeId, String)) {
        (el, self.value)
    }

    fn build(self, dom: &mut Dom, el: NodeId) -> (s: (NodeId, String)) {
        dom.set_class_name(el, self.value.as_str());
        (el, self.value)
    }

    fn rebuild(self, dom: &mut Dom, state: &mut (NodeId, String)) {
        if !(self.value == state.1) {
            proof {
                assert(Self::nodes_of(*state).contains(state.0));
            }
            dom.set_class_name(state.0, self.value.as_str());
            state.1 = self.value;
        }
    }
}

impl NextAttribute for Class {
    fn add_any_attr<N: Attribute>(self, new_attr: N) -> (r: (Class, N)) {
        (self, new_attr)
    }
}

} // verus!
