//! Adapter core for an incremental boolean-satisfiability engine.
//!
//! The engine itself is an opaque native component driven through a handful
//! of primitive operations (add an encoded literal, run a solve, query an
//! assigned value).  This crate holds the verified core of the adapter that
//! sits around such a handle: the bidirectional literal codec, the variable
//! allocator, the clause-assertion encoding, the interpretation of engine
//! status codes and assignment queries, and the two-branch solve outcome.
//! The unverified shell that owns the handle and performs the foreign calls
//! lives outside this crate and consumes these pieces.

pub mod codec;
pub mod model;
pub mod protocol;
pub mod solver;
