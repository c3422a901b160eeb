//! Loading of project descriptors: the node tree they describe, the
//! resolution of their sync points against the descriptor's folder, and the
//! upward search that finds a descriptor from a starting location.

pub mod errors;
pub mod locator;
pub mod node;
pub mod paths;
pub mod project;
pub mod raw;
pub mod source;
