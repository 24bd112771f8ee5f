//! What front-ends see.

pub mod settings;
