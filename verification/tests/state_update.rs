use openscq30_lib::devices::soundcore::a3959::packets::state_update_packet::{
    command, BODY_WIDTH,
};
use openscq30_lib::devices::soundcore::a3959::packets::A3959StateUpdatePacket;
use openscq30_lib::devices::soundcore::a3959::state::A3959State;
use openscq30_lib::devices::soundcore::a3959::structures::{
    A3959MultiButtonConfiguration, A3959NoiseCancelingMode, A3959SoundModes, ButtonAction,
    ButtonSlot,
};
use openscq30_lib::devices::soundcore::standard::packets::parsing::DecodeError;
use openscq30_lib::devices::soundcore::standard::packets::{
    Command, InboundPacket, OutboundPacket, Packet,
};
use openscq30_lib::devices::soundcore::standard::structures::{
    AdaptiveNoiseCanceling, AmbientSoundMode, AmbientSoundModeCycle, DualBattery,
    DualFirmwareVersion, EqualizerConfiguration, FirmwareVersion, HostDevice,
    ManualNoiseCanceling, MultiSceneNoiseCanceling, SensitivityLevel, SerialNumber,
    SingleBattery, TransparencyMode, TwsStatus,
};

fn sample_packet() -> A3959StateUpdatePacket {
    let slot = |is_enabled, action| ButtonSlot { is_enabled, action };
    A3959StateUpdatePacket {
        tws_status: TwsStatus { host_device: HostDevice::Right, is_connected: true },
        dual_battery: DualBattery {
            left: SingleBattery { is_charging: false, level: 4 },
            right: SingleBattery { is_charging: true, level: 5 },
        },
        dual_firmware_version: DualFirmwareVersion {
            left: FirmwareVersion::new(2, 15).unwrap(),
            right: FirmwareVersion::new(2, 16).unwrap(),
        },
        serial_number: SerialNumber::new(*b"3959ABCDEF012345").unwrap(),
        equalizer_configuration: EqualizerConfiguration {
            volume_adjustments: [
                [-60, -40, -20, 0, 20, 40, 60, 80, 100, 120],
                [1, 2, 3, 4, 5, 6, 7, 8, 9, -128],
            ],
        },
        button_configuration: A3959MultiButtonConfiguration {
            left_single_press: slot(true, ButtonAction::VolumeUp),
            left_double_press: slot(true, ButtonAction::VolumeDown),
            left_long_press: slot(false, ButtonAction::PreviousSong),
            right_single_press: slot(true, ButtonAction::NextSong),
            right_double_press: slot(true, ButtonAction::AmbientSoundMode),
            right_long_press: slot(false, ButtonAction::PlayPause),
        },
        ambient_sound_mode_cycle: AmbientSoundModeCycle {
            normal_mode: true,
            transparency_mode: false,
            noise_canceling_mode: true,
        },
        sound_modes: A3959SoundModes {
            ambient_sound_mode: AmbientSoundMode::NoiseCanceling,
            manual_noise_canceling: ManualNoiseCanceling::Moderate,
            adaptive_noise_canceling: AdaptiveNoiseCanceling::MediumNoise,
            transparency_mode: TransparencyMode::VocalMode,
            noise_canceling_mode: A3959NoiseCancelingMode::MultiScene,
            wind_noise_suppression: true,
            adaptive_sensitivity_level: SensitivityLevel::new(7).unwrap(),
            multi_scene_noise_canceling: MultiSceneNoiseCanceling::Indoor,
        },
        touch_tone: true,
        auto_power_off_enabled: true,
        auto_power_off_duration: 3,
        low_battery_prompt: false,
        gaming_mode: false,
    }
}

fn sample_body() -> Vec<u8> {
    let mut body = vec![1, 1, 4, 5, 0, 1];
    body.extend_from_slice(b"02.1502.16");
    body.extend_from_slice(b"3959ABCDEF012345");
    body.extend_from_slice(&[196, 216, 236, 0, 20, 40, 60, 80, 100, 120]);
    body.extend_from_slice(&[1, 2, 3, 4, 5, 6, 7, 8, 9, 128]);
    body.push(0);
    body.extend_from_slice(&[1, 0, 1, 1, 0, 2, 1, 3, 1, 4, 0, 6]);
    body.push(5);
    body.extend_from_slice(&[0, 0x21, 1, 2, 1, 7, 0]);
    body.push(0);
    body.push(1);
    body.extend_from_slice(&[0, 0]);
    body.extend_from_slice(&[1, 3, 0, 0]);
    body.extend_from_slice(&[0; 12]);
    body
}

#[test]
fn state_update_body_is_bit_exact() {
    let body = sample_packet().body();
    assert_eq!(body.len(), BODY_WIDTH);
    assert_eq!(body.len(), 93);
    assert_eq!(body, sample_body());
    assert_eq!(sample_packet().command(), Command(1, 1));
    assert_eq!(command(), Command(1, 1));
}

#[test]
fn state_update_decodes_what_it_encodes() {
    let packet = sample_packet();
    let body = packet.body();
    assert_eq!(A3959StateUpdatePacket::take(&body), Ok((&[][..], packet)));
    let wire = Packet { command: packet.command(), body };
    assert_eq!(wire.try_into_inbound_packet::<A3959StateUpdatePacket>(), Ok(packet));
    assert_eq!(Packet::from_outbound(&packet), wire);
}

#[test]
fn state_update_round_trip_over_many_values() {
    let mut packet = sample_packet();
    for seed in 0u8..=255 {
        packet.touch_tone = seed % 2 == 0;
        packet.gaming_mode = seed % 3 == 0;
        packet.low_battery_prompt = seed % 5 == 0;
        packet.auto_power_off_enabled = seed % 7 == 0;
        packet.auto_power_off_duration = seed;
        packet.dual_battery.left.level = seed.wrapping_mul(3);
        packet.ambient_sound_mode_cycle = AmbientSoundModeCycle::from_byte(seed);
        packet.equalizer_configuration.volume_adjustments[1][4] = seed as i8;
        packet.dual_firmware_version.left = FirmwareVersion::new(seed % 100, 99 - seed % 100).unwrap();
        packet.sound_modes.adaptive_sensitivity_level = SensitivityLevel::new(seed % 11).unwrap();
        let body = packet.body();
        assert_eq!(body.len(), 93);
        assert_eq!(A3959StateUpdatePacket::take(&body), Ok((&[][..], packet)));
    }
}

#[test]
fn truncated_state_update_is_refused() {
    let body = sample_body();
    assert_eq!(
        A3959StateUpdatePacket::take(&body[..body.len() - 1]),
        Err(DecodeError::Incomplete)
    );
    assert_eq!(A3959StateUpdatePacket::take(&[]), Err(DecodeError::Incomplete));
    assert_eq!(A3959State::from_state_update(&body[..92]), Err(DecodeError::Incomplete));
}

#[test]
fn every_other_length_is_refused() {
    let body = sample_body();
    for length in 0..body.len() {
        assert_eq!(A3959StateUpdatePacket::take(&body[..length]), Err(DecodeError::Incomplete));
    }
    let mut longer = body.clone();
    for _ in 0..5 {
        longer.push(0);
        assert_eq!(A3959StateUpdatePacket::take(&longer), Err(DecodeError::TrailingData));
    }
}

#[test]
fn malformed_field_is_refused_before_trailing_data() {
    let mut body = sample_body();
    body[0] = 2;
    assert_eq!(A3959StateUpdatePacket::take(&body), Err(DecodeError::Malformed));
    body.push(0);
    assert_eq!(A3959StateUpdatePacket::take(&body), Err(DecodeError::Malformed));
    for (position, byte) in [(8usize, b','), (20, 0xc3u8), (54, 7), (66, 9), (71, 11)] {
        let mut bad = sample_body();
        bad[position] = byte;
        assert_eq!(A3959StateUpdatePacket::take(&bad), Err(DecodeError::Malformed));
    }
}

#[test]
fn reserved_bytes_are_ignored_and_written_as_zero() {
    let mut body = sample_body();
    for position in [52usize, 73, 75, 76, 81, 92] {
        body[position] = 0xaa;
    }
    body[74] = 0x10;
    let (_, packet) = A3959StateUpdatePacket::take(&body).unwrap();
    assert_eq!(packet, sample_packet());
    assert_eq!(packet.body(), sample_body());
}

#[test]
fn state_takes_every_field_of_the_update() {
    let packet = sample_packet();
    let state = A3959State::from(packet);
    assert_eq!(state, A3959State::from_packet(packet));
    assert_eq!(state.tws_status, packet.tws_status);
    assert_eq!(state.dual_battery, packet.dual_battery);
    assert_eq!(state.dual_firmware_version, packet.dual_firmware_version);
    assert_eq!(state.serial_number, packet.serial_number);
    assert_eq!(state.equalizer_configuration, packet.equalizer_configuration);
    assert_eq!(state.button_configuration, packet.button_configuration);
    assert_eq!(state.ambient_sound_mode_cycle, packet.ambient_sound_mode_cycle);
    assert_eq!(state.sound_modes, packet.sound_modes);
    assert!(state.touch_tone);
    assert!(state.auto_power_off_enabled);
    assert_eq!(state.auto_power_off_duration, 3);
    assert!(!state.low_battery_prompt);
    assert!(!state.gaming_mode);
    assert_eq!(A3959State::from_state_update(&sample_body()), Ok(state));
}
