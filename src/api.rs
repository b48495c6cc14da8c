//! Versioned API surface.

pub mod v1;
