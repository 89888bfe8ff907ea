//! Orchestration for folding a batch of circuit steps into one recursive proof:
//! the per-step input pipeline, the public-parameter cache session, and the
//! reading of the verifier's outcome.

pub mod json;
pub mod scalar;
pub mod inputs;
pub mod verdict;
pub mod cache;
pub mod paths;
