//! Core of a local code-search service: a matcher for literal and regex
//! patterns with smart-case rules, a per-file collector that groups matched
//! lines with their context, bounded result budgets, and the assembly of the
//! final search report.

pub mod collect;
pub mod errors;
pub mod ext;
pub mod json;
pub mod matcher;
pub mod report;
pub mod rx;
pub mod search;
