//! A verified core for dataflow nodes: graph resolution of node names into
//! channel routes, a counting cancellation token, and the delivery loop of a
//! listener as a state machine that a runtime drives.

pub mod endpoint;
pub mod graph;
pub mod laws;
pub mod listener;
pub mod token;
