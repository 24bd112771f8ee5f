//! What a device model is assembled from.

use vstd::prelude::*;

use crate::devices::soundcore::standard::packet_manager::{PacketHandler, PacketManager};

verus! {

/// The parts that make up a device model with state `S` and handlers `H`.
/// Shared modules put their handlers in when the device is built; a model
/// may then put its own in their place.
#[verifier::reject_recursive_types(S)]
#[verifier::reject_recursive_types(H)]
pub struct ModuleCollection<S, H> {
    pub packet_handlers: PacketManager<S, H>,
}

impl<S: Copy, H: PacketHandler<S>> ModuleCollection<S, H> {
    /// A collection without handlers.
    pub fn new() -> (r: Self)
        ensures
            r.packet_handlers.spec_handlers() == Map::<u16, H>::empty(),
            r.packet_handlers.spec_unhandled() == 0,
    {
        ModuleCollection { packet_handlers: PacketManager::new() }
    }
}

} // verus!
