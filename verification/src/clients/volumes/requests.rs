//! The requests on volumes that are built up step by step.

pub mod create;
