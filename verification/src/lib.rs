//! Planning for building a static C library out of one directory of sources.
//!
//! The crate decides; its caller acts. Arguments become a request, a directory
//! listing becomes a set of sources and headers, and a small state machine
//! says which external step comes next and what to do when one fails.

pub mod names;
pub mod request;
pub mod sources;
pub mod artifacts;
pub mod pipeline;
pub mod runs;
