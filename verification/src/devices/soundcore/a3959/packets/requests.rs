//! The changes that the earbuds can be asked to make.

use vstd::prelude::*;

use crate::devices::soundcore::a3959::packets::state_update_packet;
use crate::devices::soundcore::a3959::state::A3959State;
use crate::devices::soundcore::a3959::structures::{A3959MultiButtonConfiguration, A3959SoundModes};
use crate::devices::soundcore::standard::packets::parsing::{
    byte_of_bool, encode_bool, lemma_decode_inverts_encode, Codec, DecodeError, Layout,
};
use crate::devices::soundcore::standard::packets::{
    decode_all, decode_flag, spec_decode, spec_decode_flag, Command, Packet,
};
use crate::devices::soundcore::standard::structures::{
    AmbientSoundModeCycle, EqualizerConfiguration,
};

verus! {

/// A change that the earbuds are asked to make: each variant is one typed
/// outbound packet, with a command of its own and the new value of one part
/// of the state as its body.
#[derive(Clone, Copy, Debug, PartialEq, Eq)]
pub enum A3959Request {
    SoundModes(A3959SoundModes),
    Equalizer(EqualizerConfiguration<2, 10>),
    ButtonConfiguration(A3959MultiButtonConfiguration),
    AmbientSoundModeCycle(AmbientSoundModeCycle),
    TouchTone(bool),
    LowBatteryPrompt(bool),
    GamingMode(bool),
}

impl A3959Request {
    /// The command that the request goes out under.
    pub open spec fn spec_command(self) -> Command {
        match self {
            A3959Request::SoundModes(_) => Command(6, 0x81),
            A3959Request::Equalizer(_) => Command(2, 0x81),
            A3959Request::ButtonConfiguration(_) => Command(4, 0x81),
            A3959Request::AmbientSoundModeCycle(_) => Command(6, 0x82),
            A3959Request::TouchTone(_) => Command(1, 0x83),
            A3959Request::LowBatteryPrompt(_) => Command(1, 0x84),
            A3959Request::GamingMode(_) => Command(1, 0x85),
        }
    }

    /// The body of the request: the part of the state as it is asked to be.
    pub open spec fn spec_body(self) -> Seq<u8> {
        match self {
            A3959Request::SoundModes(sound_modes) => sound_modes.spec_bytes(),
            A3959Request::Equalizer(equalizer) => equalizer.spec_bytes(),
            A3959Request::ButtonConfiguration(buttons) => buttons.spec_bytes(),
            A3959Request::AmbientSoundModeCycle(cycle) => cycle.spec_bytes(),
            A3959Request::TouchTone(value) => seq![byte_of_bool(value)],
            A3959Request::LowBatteryPrompt(value) => seq![byte_of_bool(value)],
            A3959Request::GamingMode(value) => seq![byte_of_bool(value)],
        }
    }

    /// The invariant of the part that the request carries.
    pub open spec fn wf(self) -> bool {
        match self {
            A3959Request::SoundModes(sound_modes) => sound_modes.wf(),
            _ => true,
        }
    }

    /// The state that the earbuds are in when they have done what the
    /// request asks: `state` with one part replaced.
    pub open spec fn spec_target(self, state: A3959State) -> A3959State {
        match self {
            A3959Request::SoundModes(sound_modes) => A3959State { sound_modes, ..state },
            A3959Request::Equalizer(equalizer_configuration) => A3959State {
                equalizer_configuration,
                ..state
            },
            A3959Request::ButtonConfiguration(button_configuration) => A3959State {
                button_configuration,
                ..state
            },
            A3959Request::AmbientSoundModeCycle(ambient_sound_mode_cycle) => A3959State {
                ambient_sound_mode_cycle,
                ..state
            },
            A3959Request::TouchTone(touch_tone) => A3959State { touch_tone, ..state },
            A3959Request::LowBatteryPrompt(low_battery_prompt) => A3959State {
                low_battery_prompt,
                ..state
            },
            A3959Request::GamingMode(gaming_mode) => A3959State { gaming_mode, ..state },
        }
    }

    /// What a packet that came under `command` with `body` asks for: nothing
    /// if the command is that of no request, otherwise the request, or why
    /// the body is refused.
    pub open spec fn spec_decode_request(command: Command, body: Seq<u8>) -> Option<
        Result<A3959Request, DecodeError>,
    > {
        if command == Command(6, 0x81) {
            Some(
                match spec_decode::<A3959SoundModes>(body) {
                    Ok(sound_modes) => Ok(A3959Request::SoundModes(sound_modes)),
                    Err(e) => Err(e),
                },
            )
        } else if command == Command(2, 0x81) {
            Some(
                match spec_decode::<EqualizerConfiguration<2, 10>>(body) {
                    Ok(equalizer) => Ok(A3959Request::Equalizer(equalizer)),
                    Err(e) => Err(e),
                },
            )
        } else if command == Command(4, 0x81) {
            Some(
                match spec_decode::<A3959MultiButtonConfiguration>(body) {
                    Ok(buttons) => Ok(A3959Request::ButtonConfiguration(buttons)),
                    Err(e) => Err(e),
                },
            )
        } else if command == Command(6, 0x82) {
            Some(
                match spec_decode::<AmbientSoundModeCycle>(body) {
                    Ok(cycle) => Ok(A3959Request::AmbientSoundModeCycle(cycle)),
                    Err(e) => Err(e),
                },
            )
        } else if command == Command(1, 0x83) {
            Some(
                match spec_decode_flag(body) {
                    Ok(value) => Ok(A3959Request::TouchTone(value)),
                    Err(e) => Err(e),
                },
            )
        } else if command == Command(1, 0x84) {
            Some(
                match spec_decode_flag(body) {
                    Ok(value) => Ok(A3959Request::LowBatteryPrompt(value)),
                    Err(e) => Err(e),
                },
            )
        } else if command == Command(1, 0x85) {
            Some(
                match spec_decode_flag(body) {
                    Ok(value) => Ok(A3959Request::GamingMode(value)),
                    Err(e) => Err(e),
                },
            )
        } else {
            None
        }
    }

    /// Exec counterpart of [`A3959Request::spec_command`].
    pub fn command(&self) -> (r: Command)
        ensures
            r == self.spec_command(),
    {
        match self {
            A3959Request::SoundModes(_) => Command(6, 0x81),
            A3959Request::Equalizer(_) => Command(2, 0x81),
            A3959Request::ButtonConfiguration(_) => Command(4, 0x81),
            A3959Request::AmbientSoundModeCycle(_) => Command(6, 0x82),
            A3959Request::TouchTone(_) => Command(1, 0x83),
            A3959Request::LowBatteryPrompt(_) => Command(1, 0x84),
            A3959Request::GamingMode(_) => Command(1, 0x85),
        }
    }

    /// Exec counterpart of [`A3959Request::spec_body`].
    pub fn body(&self) -> (r: Vec<u8>)
        ensures
            self.wf(),
            r@ == self.spec_body(),
    {
        match self {
            A3959Request::SoundModes(sound_modes) => sound_modes.bytes(),
            A3959Request::Equalizer(equalizer) => equalizer.bytes(),
            A3959Request::ButtonConfiguration(buttons) => buttons.bytes(),
            A3959Request::AmbientSoundModeCycle(cycle) => cycle.bytes(),
            A3959Request::TouchTone(value) => vec![encode_bool(*value)],
            A3959Request::LowBatteryPrompt(value) => vec![encode_bool(*value)],
            A3959Request::GamingMode(value) => vec![encode_bool(*value)],
        }
    }

    /// The packet that carries the request.
    pub fn packet(&self) -> (r: Packet)
        ensures
            r.command == self.spec_command(),
            r.body@ == self.spec_body(),
    {
        Packet { command: self.command(), body: self.body() }
    }

    /// Exec counterpart of [`A3959Request::spec_target`].
    pub fn target(&self, state: &A3959State) -> (r: A3959State)
        ensures
            r == self.spec_target(*state),
    {
        let mut next = *state;
        match self {
            A3959Request::SoundModes(sound_modes) => {
                next.sound_modes = *sound_modes;
            },
            A3959Request::Equalizer(equalizer) => {
                next.equalizer_configuration = *equalizer;
            },
            A3959Request::ButtonConfiguration(buttons) => {
                next.button_configuration = *buttons;
            },
            A3959Request::AmbientSoundModeCycle(cycle) => {
                next.ambient_sound_mode_cycle = *cycle;
            },
            A3959Request::TouchTone(value) => {
                next.touch_tone = *value;
            },
            A3959Request::LowBatteryPrompt(value) => {
                next.low_battery_prompt = *value;
            },
            A3959Request::GamingMode(value) => {
                next.gaming_mode = *value;
            },
        }
        next
    }

    /// Exec counterpart of [`A3959Request::spec_decode_request`].
    pub fn decode(packet: &Packet) -> (r: Option<Result<A3959Request, DecodeError>>)
        ensures
            r == Self::spec_decode_request(packet.command, packet.body@),
    {
        let command = packet.command;
        let body = packet.body.as_slice();
        if command == Command(6, 0x81) {
            Some(
                match decode_all::<A3959SoundModes>(body) {
                    Ok(sound_modes) => Ok(A3959Request::SoundModes(sound_modes)),
                    Err(e) => Err(e),
                },
            )
        } else if command == Command(2, 0x81) {
            Some(
                match decode_all::<EqualizerConfiguration<2, 10>>(body) {
                    Ok(equalizer) => Ok(A3959Request::Equalizer(equalizer)),
                    Err(e) => Err(e),
                },
            )
        } else if command == Command(4, 0x81) {
            Some(
                match decode_all::<A3959MultiButtonConfiguration>(body) {
                    Ok(buttons) => Ok(A3959Request::ButtonConfiguration(buttons)),
                    Err(e) => Err(e),
                },
            )
        } else if command == Command(6, 0x82) {
            Some(
                match decode_all::<AmbientSoundModeCycle>(body) {
                    Ok(cycle) => Ok(A3959Request::AmbientSoundModeCycle(cycle)),
                    Err(e) => Err(e),
                },
            )
        } else if command == Command(1, 0x83) {
            Some(
                match decode_flag(body) {
                    Ok(value) => Ok(A3959Request::TouchTone(value)),
                    Err(e) => Err(e),
                },
            )
        } else if command == Command(1, 0x84) {
            Some(
                match decode_flag(body) {
                    Ok(value) => Ok(A3959Request::LowBatteryPrompt(value)),
                    Err(e) => Err(e),
                },
            )
        } else if command == Command(1, 0x85) {
            Some(
                match decode_flag(body) {
                    Ok(value) => Ok(A3959Request::GamingMode(value)),
                    Err(e) => Err(e),
                },
            )
        } else {
            None
        }
    }
}

/// Within the model every packet type has a command of its own: two requests
/// of different kinds never share one, and none goes out under the command
/// of state updates.
pub proof fn lemma_commands_are_distinct(a: A3959Request, b: A3959Request)
    ensures
        a.spec_command() != state_update_packet::spec_command(),
        a.spec_command() == b.spec_command() ==> (a is SoundModes <==> b is SoundModes) && (a
            is Equalizer <==> b is Equalizer) && (a is ButtonConfiguration <==> b
            is ButtonConfiguration) && (a is AmbientSoundModeCycle <==> b is AmbientSoundModeCycle)
            && (a is TouchTone <==> b is TouchTone) && (a is LowBatteryPrompt <==> b
            is LowBatteryPrompt) && (a is GamingMode <==> b is GamingMode),
{
}

/// A request decodes from its own command and body to itself.
pub proof fn lemma_request_round_trip(request: A3959Request)
    requires
        request.wf(),
    ensures
        A3959Request::spec_decode_request(request.spec_command(), request.spec_body()) == Some(
            Ok::<A3959Request, DecodeError>(request),
        ),
{
    match request {
        A3959Request::SoundModes(sound_modes) => {
            lemma_decode_inverts_encode::<A3959SoundModes>(sound_modes);
        },
        A3959Request::Equalizer(equalizer) => {
            lemma_decode_inverts_encode::<EqualizerConfiguration<2, 10>>(equalizer);
        },
        A3959Request::ButtonConfiguration(buttons) => {
            lemma_decode_inverts_encode::<A3959MultiButtonConfiguration>(buttons);
        },
        A3959Request::AmbientSoundModeCycle(cycle) => {
            lemma_decode_inverts_encode::<AmbientSoundModeCycle>(cycle);
        },
        _ => {},
    }
}

} // verus!
