//! The device-listing routes.

pub mod this;
