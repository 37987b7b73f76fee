//! Classification, filtering and counting of log lines.
//!
//! A line's severity is read off its leading characters, a line is kept or
//! dropped by up to three optional criteria, and the kept lines are tallied
//! per severity. Every function here is a pure function of its arguments; the
//! threads, the queue and the console around them are the caller's.

pub mod text;
pub mod category;
pub mod filter;
pub mod counters;
pub mod pipeline;
