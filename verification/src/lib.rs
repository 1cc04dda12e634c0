//! A library for rendering markdown syntax trees as terminal slides.
//!
//! A parsed markdown tree is transformed into a flat sequence of styled text
//! lines ([`parser`]), styles compose additively ([`style`]), raw slide text is
//! split into slides on delimiter lines ([`split`]), and a presentation model
//! holds the slides and answers navigation commands ([`model`]).

pub mod model;
pub mod node;
pub mod parser;
pub mod split;
pub mod style;
