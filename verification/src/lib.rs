//! Code generator for actor-style message handlers.
//!
//! A handler is written as a plain function; this library inspects its
//! signature (receiver, optional external state, message, return type),
//! validates the shape, and assembles the text of the trait implementation
//! that registers the function as a handler, leaving the body untouched.

use vstd::prelude::*;

pub mod actor;
pub mod error;
pub mod laws;
pub mod retshape;
pub mod signature;
pub mod synth;
pub mod typexpr;

verus! {

} // verus!
