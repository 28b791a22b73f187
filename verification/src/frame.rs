//! Application-level identities, configuration and errors.

pub mod config;
pub mod errors;
pub mod events;
pub mod ids;

pub use ids::SashId;
