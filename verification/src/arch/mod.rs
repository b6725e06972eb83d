//! Per-architecture descriptor formats, paging instructions and context switches.

pub mod arm;
pub mod x86_64;
