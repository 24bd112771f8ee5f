//! Device-protocol engine for Soundcore audio hardware: packet codecs with
//! machine-checked round-trip laws, command dispatch, state snapshots and the
//! generic setting model that front-ends consume.

pub mod api;
pub mod devices;
