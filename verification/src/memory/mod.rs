//! Addresses, permission flags and the page-table engine.

pub mod addr;
pub mod flags;
pub mod page_table;
pub mod paging;
pub mod tree;
