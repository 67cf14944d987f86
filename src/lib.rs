//! Accumulates typed code-index facts and renders them as one JSON document
//! of predicate groups, in a fixed predicate order, each kind's records
//! reversed and cut into chunks of at most ten thousand.

pub mod json;
pub mod facts;
pub mod output;
pub mod laws;
