//! Construction layer for a nested, op-based intermediate representation.
//!
//! The data model (`Var`, `BasicBlock`, `Region`, `Operation`) lives in
//! [`ir`]; the incremental [`builder::OperationBuilder`] assembles one
//! `Operation` at a time, tracking the active region and block through a
//! small cursor.

pub mod attrs;
pub mod builder;
pub mod ir;
pub mod trace;
