//! The Soundcore A3959 earbuds.

use vstd::prelude::*;

use self::packets::state_update_packet::{
    spec_command, spec_state_update, A3959PacketHandler, StateUpdatePacketHandler,
};
use self::state::A3959State;
use crate::api::settings::value::Value;
use crate::api::settings::{SettingError, SettingId};
use crate::devices::soundcore::standard::device::SoundcoreDevice;
use crate::devices::soundcore::standard::modules::ModuleCollection;
use crate::devices::soundcore::standard::packets::parsing::DecodeError;
use crate::devices::soundcore::standard::packets::Packet;

pub mod apply;
pub mod packets;
pub mod settings;
pub mod state;
pub mod structures;

verus! {

/// A device of this model: its state and its handlers.
pub type A3959Device = SoundcoreDevice<A3959State, A3959PacketHandler>;

/// Builds the device from the first state update that it sent. The device
/// starts from the snapshot that the update describes, with the handler of
/// state updates registered; a body that is no state update makes no device.
pub fn new_device(first_body: &[u8]) -> (r: Result<A3959Device, DecodeError>)
    ensures
        match spec_state_update(first_body@) {
            Ok(state) => r matches Ok(device) && device.state.spec_current() == state
                && device.state.spec_installs() == 0
                && device.modules.packet_handlers.spec_unhandled() == 0
                && device.modules.packet_handlers.spec_handlers() == Map::<
                u16,
                A3959PacketHandler,
            >::empty().insert(
                spec_command().spec_key(),
                A3959PacketHandler::StateUpdate(StateUpdatePacketHandler {  }),
            ),
            Err(e) => r matches Err(found) && found == e,
        },
{
    let state = match A3959State::from_state_update(first_body) {
        Ok(state) => state,
        Err(e) => return Err(e),
    };
    let mut modules: ModuleCollection<A3959State, A3959PacketHandler> = ModuleCollection::new();
    modules.add_state_update();
    Ok(SoundcoreDevice::new(state, modules))
}

/// Builds the packet that asks the device to give the setting `id` the
/// value `value`, from the device's latest snapshot. The request is checked
/// first: where it is refused, there is no packet and nothing to send.
pub fn request_packet(device: &A3959Device, id: SettingId, value: &Value) -> (r: Result<
    Packet,
    SettingError,
>)
    ensures
        match device.state.spec_current().spec_request(id, *value) {
            Ok(request) => r matches Ok(packet) && packet.command == request.spec_command()
                && packet.body@ == request.spec_body(),
            Err(e) => r matches Err(found) && found == e,
        },
{
    match device.current().request(id, value) {
        Ok(request) => Ok(request.packet()),
        Err(e) => Err(e),
    }
}

} // verus!
