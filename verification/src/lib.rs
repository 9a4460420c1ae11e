//! An intraprocedural abstract-interpretation engine that computes, for every
//! point in a function's control-flow graph, a sound over-approximation of
//! each integer variable's sign.
//!
//! The engine works on a plain control-flow-graph representation ([`cfg`]),
//! abstracts integer values into finite sign lattices ([`lattice`] with seven
//! values, [`lattice2`] with five), lifts a lattice to a per-variable abstract
//! state with statement and branch transfer functions ([`state`]), orders
//! blocks by a depth-first post-order index ([`order`]), and drives a worklist
//! to a fixpoint ([`driver`]). [`examples`] holds ready-made graphs of small
//! indexing functions for the engine to analyze.

pub mod cfg;
pub mod driver;
pub mod examples;
pub mod lattice;
pub mod lattice2;
pub mod order;
pub mod state;
