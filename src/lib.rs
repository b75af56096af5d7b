//! Price lookup for a fixed pizza catalog, answering requests with JSON bodies.

pub mod catalog;
pub mod handler;
pub mod json;
pub mod laws;
pub mod response;
