//! Architecture layer of a bare-metal hypervisor: address arithmetic, page-table
//! descriptor codecs, a generic four-level page-table engine and the
//! host/guest execution-context switch, with machine-checked contracts.

pub mod arch;
pub mod config;
pub mod consts;
pub mod cpumask;
pub mod error;
pub mod memory;
