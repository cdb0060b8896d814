//! Finds regular files whose entire content is zero bytes.
//!
//! The library holds the logic of the scan: deciding which directory
//! entries are candidates, classifying a candidate's bytes as all-zero
//! or not with a probe read followed by bulk reads, and assembling the
//! report (the selected paths, the deletion list, the summary line).
//! Directory traversal, file reads, printing and deletion are left to
//! the binary around it, which feeds plain values in and out.

pub mod candidates;
pub mod classifier;
pub mod digits;
pub mod report;
pub mod zero;
