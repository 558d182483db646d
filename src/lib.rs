//! Code generation back end: turns a resolved contract or interface description
//! into ink! source, first as a sequence of layout pieces, then as a token stream.

pub mod structures;
pub mod names;
pub mod piece;
pub mod outside;
pub mod order;
pub mod sections;
pub mod contract;
pub mod interface;
pub mod render;
pub mod laws;
