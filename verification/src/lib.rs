//! Rendering of protocol message headers to their wire-format text lines.
//!
//! A [`headers::Header`] value is one variant of a closed union, each variant
//! standing for exactly one header name. [`headers::Header::render`] produces
//! the header's textual line (`Name: value`), with no trailing line
//! terminator, through one of four rendering strategies. The exact text of
//! every line is pinned down by the specification function
//! [`headers::spec_render`].

pub mod headers;
pub mod method;
pub mod text;
pub mod uri;
pub mod write;
