//! x86_64: processor identification, extended page tables and the context
//! switch.

pub mod context;
pub mod cpu;
pub mod ept;
pub mod segmentation;
