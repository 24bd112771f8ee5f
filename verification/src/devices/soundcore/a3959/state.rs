//! The state of the model.

use vstd::prelude::*;

use crate::devices::soundcore::a3959::packets::state_update_packet::spec_state_update;
use crate::devices::soundcore::a3959::packets::A3959StateUpdatePacket;
use crate::devices::soundcore::standard::packets::parsing::{DecodeError, Layout};
use crate::devices::soundcore::standard::packets::InboundPacket;
use crate::devices::soundcore::a3959::structures::{A3959MultiButtonConfiguration, A3959SoundModes};
use crate::devices::soundcore::standard::structures::{
    AmbientSoundModeCycle, DualBattery, DualFirmwareVersion, EqualizerConfiguration, SerialNumber,
    TwsStatus,
};

verus! {

/// A complete snapshot of what is known of the earbuds.
///
/// A snapshot is never changed in place: every update makes a new one.
#[derive(Clone, Copy, Debug, PartialEq, Eq)]
pub struct A3959State {
    pub tws_status: TwsStatus,
    pub dual_battery: DualBattery,
    pub dual_firmware_version: DualFirmwareVersion,
    pub serial_number: SerialNumber,
    pub equalizer_configuration: EqualizerConfiguration<2, 10>,
    pub button_configuration: A3959MultiButtonConfiguration,
    pub ambient_sound_mode_cycle: AmbientSoundModeCycle,
    pub sound_modes: A3959SoundModes,
    pub touch_tone: bool,
    pub auto_power_off_enabled: bool,
    pub auto_power_off_duration: u8,
    pub low_battery_prompt: bool,
    pub gaming_mode: bool,
}

impl A3959State {
    /// The invariant of a snapshot: that of its parts.
    pub open spec fn wf(self) -> bool {
        &&& self.dual_firmware_version.wf()
        &&& self.serial_number.wf()
        &&& self.sound_modes.wf()
    }

    /// The snapshot that a state update describes: every field taken over.
    pub open spec fn of_packet(packet: A3959StateUpdatePacket) -> A3959State {
        A3959State {
            tws_status: packet.tws_status,
            dual_battery: packet.dual_battery,
            dual_firmware_version: packet.dual_firmware_version,
            serial_number: packet.serial_number,
            equalizer_configuration: packet.equalizer_configuration,
            button_configuration: packet.button_configuration,
            ambient_sound_mode_cycle: packet.ambient_sound_mode_cycle,
            sound_modes: packet.sound_modes,
            touch_tone: packet.touch_tone,
            auto_power_off_enabled: packet.auto_power_off_enabled,
            auto_power_off_duration: packet.auto_power_off_duration,
            low_battery_prompt: packet.low_battery_prompt,
            gaming_mode: packet.gaming_mode,
        }
    }
}

impl A3959State {
    /// Exec counterpart of [`A3959State::of_packet`].
    pub fn from_packet(packet: A3959StateUpdatePacket) -> (r: A3959State)
        ensures
            r == A3959State::of_packet(packet),
    {
        A3959State {
            tws_status: packet.tws_status,
            dual_battery: packet.dual_battery,
            dual_firmware_version: packet.dual_firmware_version,
            serial_number: packet.serial_number,
            equalizer_configuration: packet.equalizer_configuration,
            button_configuration: packet.button_configuration,
            ambient_sound_mode_cycle: packet.ambient_sound_mode_cycle,
            sound_modes: packet.sound_modes,
            touch_tone: packet.touch_tone,
            auto_power_off_enabled: packet.auto_power_off_enabled,
            auto_power_off_duration: packet.auto_power_off_duration,
            low_battery_prompt: packet.low_battery_prompt,
            gaming_mode: packet.gaming_mode,
        }
    }
}

impl A3959State {
    /// The snapshot that the body of a state update describes.
    pub fn from_state_update(body: &[u8]) -> (r: Result<A3959State, DecodeError>)
        ensures
            r == spec_state_update(body@),
    {
        match A3959StateUpdatePacket::take(body) {
            Ok((_, packet)) => Ok(A3959State::from_packet(packet)),
            Err(e) => Err(e),
        }
    }
}

impl From<A3959StateUpdatePacket> for A3959State {
    fn from(packet: A3959StateUpdatePacket) -> (r: Self) {
        A3959State::from_packet(packet)
    }
}

impl vstd::std_specs::convert::FromSpecImpl<A3959StateUpdatePacket> for A3959State {
    open spec fn obeys_from_spec() -> bool {
        true
    }

    open spec fn from_spec(packet: A3959StateUpdatePacket) -> Self {
        A3959State::of_packet(packet)
    }
}

} // verus!
