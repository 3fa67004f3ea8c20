//! Listing of running processes: the decisions and buffer handling behind
//! enumerating process identifiers, resolving each one's module base name,
//! and reporting one line per process.

pub mod enumerate;
pub mod name;
pub mod report;
pub mod listing;
