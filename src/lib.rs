//! Runs one command on many remote hosts at once: the decisions of that run,
//! verified. A session pipeline per host, two admission pools bounding
//! concurrent sessions and agent authentications, a calibrator searching for a
//! safe concurrency level, and a sink that classifies and frames the outcomes.
use vstd::prelude::*;

pub mod calibrate;
pub mod config;
pub mod outcome;
pub mod pipeline;
pub mod scheduler;
pub mod sink;
pub mod text;

verus! {

} // verus!
