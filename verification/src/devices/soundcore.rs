//! Soundcore devices: what all models share, and the models.

pub mod a3959;
pub mod standard;
