//! A visitor counter service: an atomic counter store keyed by random
//! identifiers, and a badge renderer that turns a count and a set of query
//! options into an SVG document.
pub mod badge;
pub mod ids;
pub mod service;
pub mod store;
pub mod text;
