//! Checks that the four common hostname variants of an apex domain
//! (bare and `www.`, over HTTP and HTTPS) are all reachable.
//!
//! This crate holds the tool's logic: validating the command-line
//! argument, building the four candidate URLs in their fixed order,
//! formatting the per-probe report lines, and deciding the process
//! exit code. The network probes and terminal output themselves are
//! left to the surrounding binary.

pub mod messages;
pub mod report;
pub mod text;
pub mod urls;
pub mod validate;
