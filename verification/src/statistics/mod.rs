//! The statistics service, as far as the hub deals with it.

pub mod database;
pub mod model;
pub mod wrapped;
