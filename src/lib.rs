//! A dual-stream logger that writes timestamped lines to day-partitioned
//! files: the naming, routing, line format and day-rotation rules, verified.

pub mod clock;
pub mod failure;
pub mod laws;
pub mod line;
pub mod logger;
