//! Device families.

pub mod soundcore;
