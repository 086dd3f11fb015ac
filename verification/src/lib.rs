//! Last-in-first-out lists built from singly owned, singly linked nodes.

pub mod first;
pub mod laws;
pub mod model;
pub mod second;
