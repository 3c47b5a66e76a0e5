//! Charts of the lock benchmarks.
//!
//! The benchmarks of the locks that are built on the parker take their
//! settings as arguments and print one rate per lock implementation. A
//! chart runs a benchmark over a range of one or two of its arguments.
//! These modules read the command line of such a chart and lay out the
//! measurements for drawing; running the benchmark and drawing are left
//! to the caller.

pub mod text;
pub mod axis;
pub mod range;
pub mod plot;
pub mod samples;
