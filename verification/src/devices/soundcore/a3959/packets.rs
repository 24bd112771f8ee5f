//! The packets of the model.

pub mod requests;
pub mod state_update_packet;

pub use self::requests::A3959Request;
pub use self::state_update_packet::A3959StateUpdatePacket;
