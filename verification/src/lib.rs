//! An averaging video filter and the pipeline controller around it.
//!
//! The filter rewrites every frame it is handed into a single solid color:
//! each pixel becomes the per-channel floor average of the whole frame. The
//! controller assembles the linear processing chain around the filter, drives
//! its lifecycle state machine, and consumes the host runtime's bus events
//! until the stream ends or fails.

pub mod avg;
pub mod controller;
pub mod filter;
