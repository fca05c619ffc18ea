//! List the buildable targets of an existing CMake build tree.

pub mod cancellation;
pub mod cli;
pub mod error;
pub mod interrupt;
pub mod text;
pub mod cmake;
