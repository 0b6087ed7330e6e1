//! A marker resource that records, in a bevy `World`, that something has been
//! initialized, so that setup which may be asked for many times is done once.

pub mod laws;
pub mod marker;
pub mod model;
pub mod schedule;
pub mod store;

pub use marker::Initialized;
