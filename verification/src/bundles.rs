//! The catalog of bundles.

pub mod projektwoche;
