//! Resolution selection and transcode sequencing for a video processing service.
//!
//! The library holds the decisions: which geometry each requested label maps
//! to, when a resolution is skipped, and the order in which the decode, scale,
//! encode, flush and mux steps of one transcode run. The media work itself is
//! done by the caller, which reports each step's outcome back.
use vstd::prelude::*;

pub mod catalog;
pub mod geometry;
pub mod job;
pub mod pipeline;

verus! {

} // verus!
