use tachys::attribute::{Attribute, NextAttribute};
use tachys::class::class;
use tachys::element::{div, span};
use tachys::inner_html::{inner_html, InnerHtml, InnerHtmlAttribute};
use tachys::renderer::Dom;

fn s(v: &str) -> String {
    v.to_string()
}

#[test]
fn build_writes_markup_verbatim() {
    let mut dom = Dom::new();
    let el = dom.create_element();
    let raw = "<script>a && b</script> &amp; <i>x</i>";
    let state = inner_html(s(raw)).build(&mut dom, el);
    assert_eq!(dom.inner_html(el), raw);
    assert_eq!(dom.write_count(), 1);
    assert_eq!(state.0, el);
    assert_eq!(state.1, raw);
}

#[test]
fn build_empty_markup_still_writes() {
    let mut dom = Dom::new();
    let el = dom.create_element();
    let state = inner_html(s("")).build(&mut dom, el);
    assert_eq!(dom.inner_html(el), "");
    assert_eq!(dom.write_count(), 1);
    assert_eq!(state.1, "");
}

#[test]
fn rebuild_with_new_value_rewrites_node_and_state() {
    let mut dom = Dom::new();
    let el = dom.create_element();
    let mut state = inner_html(s("<p>one</p>")).build(&mut dom, el);
    inner_html(s("<p>two</p>")).rebuild(&mut dom, &mut state);
    assert_eq!(dom.inner_html(el), "<p>two</p>");
    assert_eq!(dom.write_count(), 2);
    assert_eq!(state.0, el);
    assert_eq!(state.1, "<p>two</p>");
}

#[test]
fn rebuild_with_same_value_writes_nothing() {
    let mut dom = Dom::new();
    let el = dom.create_element();
    let mut state = inner_html(s("<b>same</b>")).build(&mut dom, el);
    let before = dom.write_count();
    inner_html(s("<b>same</b>")).rebuild(&mut dom, &mut state);
    inner_html(s("<b>same</b>")).rebuild(&mut dom, &mut state);
    assert_eq!(dom.write_count(), before);
    assert_eq!(dom.inner_html(el), "<b>same</b>");
    assert_eq!(state.1, "<b>same</b>");
}

#[test]
fn hydrate_records_state_without_writing() {
    let mut dom = Dom::new();
    let el = dom.create_element();
    let from_server = inner_html(s("<em>x</em>")).hydrate::<true>(el);
    let from_client = inner_html(s("<em>x</em>")).hydrate::<false>(el);
    assert_eq!(from_server, (el, s("<em>x</em>")));
    assert_eq!(from_client, (el, s("<em>x</em>")));
    assert_eq!(dom.write_count(), 0);
    assert_eq!(dom.inner_html(el), "");
}

#[test]
fn hydrated_state_skips_rebuild_with_same_value() {
    let mut dom = Dom::new();
    let el = dom.create_element();
    let mut state = inner_html(s("<em>x</em>")).hydrate::<true>(el);
    inner_html(s("<em>x</em>")).rebuild(&mut dom, &mut state);
    assert_eq!(dom.write_count(), 0);
    inner_html(s("<em>y</em>")).rebuild(&mut dom, &mut state);
    assert_eq!(dom.write_count(), 1);
    assert_eq!(dom.inner_html(el), "<em>y</em>");
}

#[test]
fn to_html_appends_only_to_inner_markup_buffer() {
    let mut buf = s("<div");
    let mut class = s("c");
    let mut style = s("color: red");
    let mut inner = s("");
    inner_html(s("<b>x</b>")).to_html(&mut buf, &mut class, &mut style, &mut inner);
    assert_eq!(inner, "<b>x</b>");
    assert_eq!(buf, "<div");
    assert_eq!(class, "c");
    assert_eq!(style, "color: red");
}

#[test]
fn to_html_appends_after_existing_inner_markup() {
    let mut buf = String::new();
    let mut class = String::new();
    let mut style = String::new();
    let mut inner = s("<i>a</i>");
    inner_html(s("<b>x</b>")).to_html(&mut buf, &mut class, &mut style, &mut inner);
    assert_eq!(inner, "<i>a</i><b>x</b>");
    assert_eq!(buf, "");
}

#[test]
fn min_length_is_zero() {
    assert_eq!(InnerHtml::MIN_LENGTH, 0);
}

#[test]
fn value_returns_markup() {
    assert_eq!(inner_html(s("<hr>")).value(), "<hr>");
}

#[test]
fn add_any_attr_keeps_both_in_order() {
    let (first, second) = inner_html(s("<p>a</p>")).add_any_attr(class(s("big")));
    assert_eq!(first.value(), "<p>a</p>");
    assert_eq!(second.value(), "big");
}

#[test]
fn chain_builds_both_and_rebuilds_each_independently() {
    let mut dom = Dom::new();
    let el = dom.create_element();
    let chain = inner_html(s("<b>x</b>")).add_any_attr(class(s("red")));
    let mut state = chain.build(&mut dom, el);
    assert_eq!(dom.inner_html(el), "<b>x</b>");
    assert_eq!(dom.class_name(el), "red");
    assert_eq!(dom.write_count(), 2);

    inner_html(s("<b>y</b>")).rebuild(&mut dom, &mut state.0);
    assert_eq!(dom.inner_html(el), "<b>y</b>");
    assert_eq!(dom.class_name(el), "red");
    assert_eq!(state.1 .1, "red");
    assert_eq!(dom.write_count(), 3);

    class(s("blue")).rebuild(&mut dom, &mut state.1);
    assert_eq!(dom.class_name(el), "blue");
    assert_eq!(dom.inner_html(el), "<b>y</b>");
    assert_eq!(state.0 .1, "<b>y</b>");
    assert_eq!(dom.write_count(), 4);

    let next = inner_html(s("<b>y</b>")).add_any_attr(class(s("green")));
    next.rebuild(&mut dom, &mut state);
    assert_eq!(dom.inner_html(el), "<b>y</b>");
    assert_eq!(dom.class_name(el), "green");
    assert_eq!(dom.write_count(), 5);
}

#[test]
fn chain_to_html_fills_each_buffer() {
    let mut buf = String::new();
    let mut class_buf = s("a");
    let mut style = String::new();
    let mut inner = String::new();
    let chain = inner_html(s("<b>x</b>")).add_any_attr(class(s("b")));
    chain.to_html(&mut buf, &mut class_buf, &mut style, &mut inner);
    assert_eq!(inner, "<b>x</b>");
    assert_eq!(class_buf, "a b");
    assert_eq!(buf, "");
    assert_eq!(style, "");
}

#[test]
fn class_to_html_into_empty_buffer_has_no_separator() {
    let mut buf = String::new();
    let mut class_buf = String::new();
    let mut style = String::new();
    let mut inner = String::new();
    class(s("big")).to_html(&mut buf, &mut class_buf, &mut style, &mut inner);
    assert_eq!(class_buf, "big");
    assert_eq!(inner, "");
}

#[test]
fn element_build_then_rebuild_sequence() {
    let mut dom = Dom::new();
    let mut state = div().inner_html(s("a")).build(&mut dom);
    assert_eq!(dom.len(), 1);
    assert_eq!(dom.inner_html(state.el), "a");
    assert_eq!(dom.write_count(), 1);

    div().inner_html(s("a")).rebuild(&mut dom, &mut state);
    assert_eq!(dom.inner_html(state.el), "a");
    assert_eq!(dom.write_count(), 1);

    div().inner_html(s("b")).rebuild(&mut dom, &mut state);
    assert_eq!(dom.inner_html(state.el), "b");
    assert_eq!(dom.write_count(), 2);
}

#[test]
fn element_with_no_attributes_builds_an_empty_node() {
    let mut dom = Dom::new();
    let state = span().build(&mut dom);
    assert_eq!(dom.len(), 1);
    assert_eq!(dom.inner_html(state.el), "");
    assert_eq!(dom.class_name(state.el), "");
    assert_eq!(dom.write_count(), 0);
}

#[test]
fn element_hydrate_does_not_write() {
    let mut dom = Dom::new();
    let el = dom.create_element();
    let state = div()
        .add_any_attr(class(s("k")))
        .inner_html(s("<u>z</u>"))
        .hydrate::<true>(el);
    assert_eq!(state.el, el);
    assert_eq!(state.attrs.1 .1, "<u>z</u>");
    assert_eq!(state.attrs.0 .1 .1, "k");
    assert_eq!(dom.write_count(), 0);
}

#[test]
fn element_to_html_serialises_attributes() {
    let mut buf = String::new();
    let mut class_buf = String::new();
    let mut style = String::new();
    let mut inner = String::new();
    div()
        .add_any_attr(class(s("k")))
        .inner_html(s("<u>z</u>"))
        .to_html(&mut buf, &mut class_buf, &mut style, &mut inner);
    assert_eq!(class_buf, "k");
    assert_eq!(inner, "<u>z</u>");
    assert_eq!(buf, "");
    assert_eq!(style, "");
}

#[test]
fn nodes_are_independent() {
    let mut dom = Dom::new();
    let a = dom.create_element();
    let b = dom.create_element();
    inner_html(s("1")).build(&mut dom, a);
    inner_html(s("2")).build(&mut dom, b);
    assert_eq!(dom.inner_html(a), "1");
    assert_eq!(dom.inner_html(b), "2");
    assert_eq!(dom.len(), 2);
}
