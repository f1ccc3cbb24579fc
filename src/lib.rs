//! Distributed unique identifiers: a bit-packed, clock-derived id generator and the
//! decisions of the worker that claims a node slot in a coordination store.

pub mod config;
pub mod generator;
pub mod text;
pub mod worker;
