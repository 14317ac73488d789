//! Cheap structural pre-filters and compile-time allowances for candidate
//! programs produced by a compiler fuzzer.

pub mod duration;
pub mod gate;
pub mod laws;
pub mod macro_depth;
pub mod scan;

pub use duration::{check_dur, expected_dur, Allowance, Verdict};
pub use gate::{do_not_compile, do_not_even_parse};
pub use macro_depth::unique_macro_levels;
pub use scan::{count_bytes_in, count_occurrences, max_nesting};
