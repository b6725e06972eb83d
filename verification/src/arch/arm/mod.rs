//! AArch64: the two VMSAv8-64 translation stages and the context switch.

pub mod context;
pub mod s1pt;
pub mod s2pt;
