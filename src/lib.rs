//! Execution core of a stream-processing pipeline: the operator contract, the
//! adapter that wraps every operator in one storable shape, and the factory
//! that builds an operator from a declaration.

pub mod value;
pub mod error;
pub mod event;
pub mod op;
pub mod batch;
pub mod passthrough;
pub mod config;
pub mod registry;
pub mod trickle;
