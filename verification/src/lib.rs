//! Nondeterministic booleans over a CNF formula store.
//!
//! A session ([`NdMachine`]) owns a formula store of the `sat` crate and the
//! slot for its latest solution. Nondeterministic booleans ([`ndbool`]) are
//! literals of that formula; their connectives append Tseitin gates to it.
//! A backend searches for an assignment, and the values of the booleans are
//! read from what it found.

pub mod boolean;
pub mod equality;
pub mod formula;
pub mod laws;
pub mod machine;
pub mod semantics;
pub mod store;

pub use boolean::{ndassert, ndbool};
pub use equality::{ndassert_eq, ndassert_ne, NdEq};
pub use machine::{init, solve_by, NdError, NdMachine};

