//! Edit-compile-run core of a SimplicityHL scripting workbench.
//!
//! The library holds the lazy source cache that recompiles a program at most
//! once per distinct text snapshot, the staged compilation pipeline with its
//! error short-circuiting, the execution runner that drives a satisfied
//! program against a transaction environment, and a harness that executes a
//! single jet through the bit machine.

pub mod jet;
pub mod pipeline;
pub mod program;
pub mod runtime;
pub mod text;
