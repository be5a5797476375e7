//! Client-side logic for a remote malware-analysis workflow: a file is
//! identified by a content fingerprint, looked up against the service's
//! cache, uploaded when unknown, and polled until the analysis completes.
//!
//! The crate verifies the decision logic: mapping transport status codes to
//! typed outcomes, the cache-hit/submit decision, and the polling state
//! machine with its progress threshold and attempt bound. Transport itself
//! (HTTP, file reading) is left to the surrounding program.

pub mod digest;
pub mod hexfmt;
pub mod protocol;
pub mod workflow;
