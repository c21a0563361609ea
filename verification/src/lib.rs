//! Target matching and descriptor relay for a process-specialization hook.
//!
//! The hook runs in two phases around the moment a freshly forked process
//! drops its privileges. Before the drop it decides whether the process is
//! the configured target and, if so, has a descriptor to the payload opened
//! and kept; after the drop it decides again and, if the process still
//! matches, has the payload loaded through that descriptor.
//!
//! Everything here is a function of plain values. The caller performs the
//! reads, opens and loads, and reports what came back.

pub mod controller;
pub mod identity;
pub mod payload;
pub mod target;
pub mod text;
