//! An in-process profiling toggle library: activate and deactivate CPU and
//! heap-allocation profiling at runtime and dump the collected samples to a
//! file, behind a small verified lifecycle controller per profiling kind.

pub mod chars;
pub mod cpu;
pub mod errors;
pub mod lifecycle;
pub mod mem;
pub mod naming;
pub mod parse;
pub mod surface;

pub use errors::ProfError;
