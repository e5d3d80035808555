//! Small verified utilities: a day-of-week classifier, integer range
//! helpers (sum of squares, in-place squaring, even values), and a
//! greeting formatter.

pub mod days;
pub mod greeting;
pub mod numbers;
