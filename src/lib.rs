//! Attribute lifecycle for a fine-grained UI renderer: serialising an
//! attribute to markup, building it against a fresh node, hydrating it over
//! existing markup and rebuilding it when its value changes.
//!
//! `inner_html` is the raw-markup attribute: its value is written into the
//! element's content verbatim, with no escaping. The caller must hand it
//! markup that is already sanitised.

pub mod attribute;
pub mod class;
pub mod element;
pub mod inner_html;
pub mod lifecycle;
pub mod renderer;
