//! Turning a snippet of Rust source into one of the compiler's textual
//! intermediate representations.
//!
//! The library holds the rules of a compile request: which representation
//! kinds are accepted and how an unknown one is coerced, how the compiler's
//! command line is assembled, and how its outcome becomes a response. Running
//! the compiler and serving requests is left to the program around it.
use vstd::prelude::*;

pub mod api;
pub mod compiler;
pub mod ir;

verus! {

} // verus!
