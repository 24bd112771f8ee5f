//! What all Soundcore models share.

pub mod device;
pub mod modules;
pub mod packet_manager;
pub mod packets;
pub mod state;
pub mod structures;
