//! Facts about the raw-markup attribute's lifecycle and about chains of
//! attributes, stated over the models that the operations' contracts use.

use vstd::prelude::*;
use crate::attribute::Attribute;
use crate::class::Class;
use crate::inner_html::InnerHtml;
use crate::renderer::{DomView, NodeId};

verus! {

/// Building raw markup on a node leaves that node's content equal to the
/// markup, character for character, after exactly one write.
pub proof fn lemma_build_sets_content(a: InnerHtml, dom: DomView, el: NodeId)
    requires
        dom.has(el),
    ensures
        a.apply(dom, el).inner_html_of(el) == a@,
        a.apply(dom, el).write_count() == dom.write_count() + 1,
        a.apply(dom, el).nodes.len() == dom.nodes.len(),
{
}

/// Rebuilding raw markup whose value differs from the recorded one writes
/// the new value to the recorded node, exactly once; the state that the
/// rebuild leaves records the new value.
pub proof fn lemma_rebuild_changed(
    a: InnerHtml,
    dom: DomView,
    state: (NodeId, String),
    next: (NodeId, String),
)
    requires
        dom.has(state.0),
        state.1@ != a@,
        a.records(next),
    ensures
        a.refresh(dom, state) == dom.with_inner_html(state.0, a@),
        a.refresh(dom, state).inner_html_of(state.0) == a@,
        a.refresh(dom, state).write_count() == dom.write_count() + 1,
        next.1@ == a@,
{
}

/// Rebuilding raw markup with the value already recorded writes nothing.
pub proof fn lemma_rebuild_unchanged(a: InnerHtml, dom: DomView, state: (NodeId, String))
    requires
        state.1@ == a@,
    ensures
        a.refresh(dom, state) == dom,
        a.refresh(dom, state).write_count() == dom.write_count(),
{
    a.lemma_refresh_current(dom, state);
}

/// The state that hydrating raw markup on `el` produces, whichever source
/// the markup came from, is the node `el` and the attribute's value.
pub proof fn lemma_hydrate_state(a: InnerHtml, el: NodeId, s: (NodeId, String))
    requires
        a.records(s),
        InnerHtml::nodes_of(s).subset_of(set![el]),
    ensures
        s.0 == el,
        s.1@ == a@,
{
    assert(InnerHtml::nodes_of(s).contains(s.0));
}

/// A chain of raw markup and a class list applies both to the node. Each
/// member can then be rebuilt, alone or within the chain, without undoing
/// the other's effect.
pub proof fn lemma_chain_independent(
    a: InnerHtml,
    c: Class,
    a2: InnerHtml,
    c2: Class,
    dom: DomView,
    el: NodeId,
    sa: (NodeId, String),
    sc: (NodeId, String),
)
    requires
        dom.has(el),
        sa.0 == el,
        sc.0 == el,
        a.records(sa),
        c.records(sc),
    ensures
        (a, c).apply(dom, el).inner_html_of(el) == a@,
        (a, c).apply(dom, el).class_name_of(el) == c@,
        (a, c).apply(dom, el).write_count() == dom.write_count() + 2,
        a2.refresh((a, c).apply(dom, el), sa).class_name_of(el) == c@,
        c2.refresh((a, c).apply(dom, el), sc).inner_html_of(el) == a@,
        (a2, c).refresh((a, c).apply(dom, el), (sa, sc)) == a2.refresh((a, c).apply(dom, el), sa),
        (a, c2).refresh((a, c).apply(dom, el), (sa, sc)) == c2.refresh((a, c).apply(dom, el), sc),
{
    let d = (a, c).apply(dom, el);
    a.lemma_refresh_current(d, sa);
    c.lemma_refresh_current(a2.refresh(d, sa), sc);
}

} // verus!
