//! A reporting engine for the power-related devices of a machine.
//!
//! The crate turns normalized records describing batteries, AC adapters and
//! thermal sensors into the exact lines of human-readable text that a status
//! tool prints.  Every formatter is specified down to the character sequence
//! it produces; acquisition of the records and writing of the lines are left
//! to the surrounding program.

pub mod model;
pub mod report;
pub mod text;
