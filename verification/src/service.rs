//! The service layer: the pure decisions behind each workspace operation.

pub mod workspace;
