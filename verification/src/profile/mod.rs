//! Profiles: their model and where they are stored.

pub mod model;
pub mod store;
