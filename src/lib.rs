//! Compiles a declarative release description into an ordered set of
//! governance upgrade scripts, threading content hashes through multi-step
//! proposals, and checks a release against live on-chain state.
pub mod model;
pub mod compare;
pub mod text;
pub mod script;
pub mod compiler;
pub mod validate;
pub mod layout;
pub mod tool;
