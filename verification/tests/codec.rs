use openscq30_lib::devices::soundcore::a3959::structures::{
    A3959MultiButtonConfiguration, A3959NoiseCancelingMode, A3959SoundModes, ButtonAction,
    ButtonSlot,
};
use openscq30_lib::devices::soundcore::standard::packets::parsing::{
    decode_bool, encode_bool, ByteEnum, Codec, DecodeError,
};
use openscq30_lib::devices::soundcore::standard::structures::equalizer_configuration::{
    decode_gain, encode_gain,
};
use openscq30_lib::devices::soundcore::standard::structures::{
    AdaptiveNoiseCanceling, AmbientSoundMode, AmbientSoundModeCycle, DualBattery,
    DualFirmwareVersion, EqualizerConfiguration, FirmwareVersion, HostDevice,
    ManualNoiseCanceling, MultiSceneNoiseCanceling, SensitivityLevel, SerialNumber,
    SingleBattery, TransparencyMode, TwsStatus,
};

#[test]
fn tws_status_reads_host_and_link() {
    let (rest, status) = TwsStatus::take(&[1, 1, 9]).unwrap();
    assert_eq!(status, TwsStatus { host_device: HostDevice::Right, is_connected: true });
    assert_eq!(rest, &[9]);
    assert_eq!(TwsStatus::take(&[2, 0]), Err(DecodeError::Malformed));
    assert_eq!(TwsStatus::take(&[0]), Err(DecodeError::Incomplete));
}

#[test]
fn tws_status_round_trip() {
    for host_device in [HostDevice::Left, HostDevice::Right] {
        for is_connected in [false, true] {
            let status = TwsStatus { host_device, is_connected };
            let bytes = status.bytes();
            assert_eq!(bytes.len(), 2);
            assert_eq!(TwsStatus::take(&bytes), Ok((&[][..], status)));
        }
    }
}

#[test]
fn any_nonzero_byte_is_true() {
    assert!(!decode_bool(0));
    assert!(decode_bool(1));
    assert!(decode_bool(2));
    assert!(decode_bool(255));
    assert_eq!(encode_bool(false), 0);
    assert_eq!(encode_bool(true), 1);
    let (_, status) = TwsStatus::take(&[0, 0x80]).unwrap();
    assert!(status.is_connected);
    assert_eq!(status.bytes(), vec![0, 1]);
}

#[test]
fn dual_battery_layout() {
    let battery = DualBattery {
        left: SingleBattery { is_charging: false, level: 4 },
        right: SingleBattery { is_charging: true, level: 5 },
    };
    assert_eq!(battery.bytes(), vec![4, 5, 0, 1]);
    assert_eq!(DualBattery::take(&[4, 5, 0, 1, 7, 7]), Ok((&[7, 7][..], battery)));
    assert_eq!(DualBattery::take(&[4, 5, 0]), Err(DecodeError::Incomplete));
}

#[test]
fn firmware_version_is_five_ascii_characters() {
    let version = FirmwareVersion::new(2, 15).unwrap();
    assert_eq!(version.major(), 2);
    assert_eq!(version.minor(), 15);
    assert_eq!(version.bytes(), b"02.15".to_vec());
    assert_eq!(version.to_string(), "02.15");
    assert_eq!(FirmwareVersion::take(b"02.15x"), Ok((&b"x"[..], version)));
    assert_eq!(FirmwareVersion::take(b"99.00").unwrap().1, FirmwareVersion::new(99, 0).unwrap());
}

#[test]
fn firmware_version_rejects_what_is_not_two_digits_dot_two_digits() {
    assert_eq!(FirmwareVersion::take(b"02,15"), Err(DecodeError::Malformed));
    assert_eq!(FirmwareVersion::take(b"a2.15"), Err(DecodeError::Malformed));
    assert_eq!(FirmwareVersion::take(b"02.1/"), Err(DecodeError::Malformed));
    assert_eq!(FirmwareVersion::take(b"02.1:"), Err(DecodeError::Malformed));
    assert_eq!(FirmwareVersion::take(b"02.1"), Err(DecodeError::Incomplete));
    assert_eq!(FirmwareVersion::new(100, 0), None);
    assert_eq!(FirmwareVersion::new(0, 100), None);
}

#[test]
fn dual_firmware_version_round_trip() {
    let versions = DualFirmwareVersion {
        left: FirmwareVersion::new(1, 2).unwrap(),
        right: FirmwareVersion::new(34, 56).unwrap(),
    };
    let bytes = versions.bytes();
    assert_eq!(bytes, b"01.0234.56".to_vec());
    assert_eq!(DualFirmwareVersion::take(&bytes), Ok((&[][..], versions)));
    assert_eq!(DualFirmwareVersion::take(b"01.0234.5"), Err(DecodeError::Incomplete));
    assert_eq!(DualFirmwareVersion::take(b"01.02x4.56"), Err(DecodeError::Malformed));
}

#[test]
fn serial_number_is_sixteen_ascii_characters() {
    let serial = SerialNumber::new(*b"3959ABCDEF012345").unwrap();
    assert_eq!(serial.characters(), *b"3959ABCDEF012345");
    assert_eq!(serial.to_string(), "3959ABCDEF012345");
    assert_eq!(serial.bytes(), b"3959ABCDEF012345".to_vec());
    assert_eq!(SerialNumber::take(b"3959ABCDEF012345zz"), Ok((&b"zz"[..], serial)));
    assert_eq!(SerialNumber::take(b"3959ABCDEF01234"), Err(DecodeError::Incomplete));
    let mut bad = *b"3959ABCDEF012345";
    bad[7] = 0x80;
    assert_eq!(SerialNumber::new(bad), None);
    assert_eq!(SerialNumber::take(&bad), Err(DecodeError::Malformed));
}

#[test]
fn ambient_sound_mode_cycle_bits() {
    let cycle = AmbientSoundModeCycle {
        normal_mode: true,
        transparency_mode: false,
        noise_canceling_mode: true,
    };
    assert_eq!(cycle.byte(), 5);
    assert_eq!(cycle.bytes(), vec![5]);
    assert_eq!(AmbientSoundModeCycle::from_byte(5), cycle);
    assert_eq!(AmbientSoundModeCycle::from_byte(0xfd), cycle);
    assert_eq!(AmbientSoundModeCycle::take(&[2, 1]).unwrap().1.byte(), 2);
    assert_eq!(AmbientSoundModeCycle::take(&[2, 1]).unwrap().0, &[1]);
    assert_eq!(AmbientSoundModeCycle::take(&[]), Err(DecodeError::Incomplete));
    for byte in 0u8..8 {
        assert_eq!(AmbientSoundModeCycle::from_byte(byte).byte(), byte);
    }
}

#[test]
fn gains_are_signed_bytes() {
    assert_eq!(decode_gain(0), 0);
    assert_eq!(decode_gain(127), 127);
    assert_eq!(decode_gain(128), -128);
    assert_eq!(decode_gain(255), -1);
    assert_eq!(encode_gain(-1), 255);
    assert_eq!(encode_gain(-128), 128);
    assert_eq!(encode_gain(60), 60);
    for byte in 0u8..=255 {
        assert_eq!(encode_gain(decode_gain(byte)), byte);
    }
}

#[test]
fn equalizer_all_zero_block_reads_zero_and_writes_back() {
    let block = [0u8; 20];
    let (rest, equalizer) = EqualizerConfiguration::<2, 10>::take(&block).unwrap();
    assert!(rest.is_empty());
    for channel in 0..2 {
        for band in 0..10 {
            assert_eq!(equalizer.gain(channel, band), Some(0));
        }
    }
    assert_eq!(equalizer, EqualizerConfiguration::<2, 10>::flat());
    assert_eq!(equalizer.bytes(), block.to_vec());
}

#[test]
fn equalizer_is_row_major() {
    let mut block = [0u8; 20];
    for (position, byte) in block.iter_mut().enumerate() {
        *byte = (position as u8).wrapping_mul(13);
    }
    let (_, equalizer) = EqualizerConfiguration::<2, 10>::take(&block).unwrap();
    assert_eq!(equalizer.gain(0, 3), Some(39));
    assert_eq!(equalizer.gain(1, 0), Some(-126));
    assert_eq!(equalizer.gain(1, 9), Some(decode_gain(247)));
    assert_eq!(equalizer.gain(2, 0), None);
    assert_eq!(equalizer.gain(0, 10), None);
    assert_eq!(equalizer.bytes(), block.to_vec());
    assert_eq!(
        EqualizerConfiguration::<2, 10>::take(&block[..19]),
        Err(DecodeError::Incomplete)
    );
    let small = EqualizerConfiguration::<1, 3> { volume_adjustments: [[-5, 0, 5]] };
    assert_eq!(small.bytes(), vec![251, 0, 5]);
    assert_eq!(EqualizerConfiguration::<1, 3>::take(&[251, 0, 5, 1]), Ok((&[1u8][..], small)));
}

#[test]
fn enumerations_are_found_again_from_their_bytes() {
    for action in [
        ButtonAction::VolumeUp,
        ButtonAction::VolumeDown,
        ButtonAction::PreviousSong,
        ButtonAction::NextSong,
        ButtonAction::AmbientSoundMode,
        ButtonAction::VoiceAssistant,
        ButtonAction::PlayPause,
    ] {
        assert_eq!(ButtonAction::from_byte(action.byte()), Some(action));
    }
    assert_eq!(ButtonAction::from_byte(7), None);
    assert_eq!(ButtonAction::PlayPause.byte(), 6);
    assert_eq!(AmbientSoundMode::from_byte(2), Some(AmbientSoundMode::Normal));
    assert_eq!(AmbientSoundMode::from_byte(3), None);
    assert_eq!(TransparencyMode::from_byte(1), Some(TransparencyMode::VocalMode));
    assert_eq!(ManualNoiseCanceling::from_byte(0), None);
    assert_eq!(ManualNoiseCanceling::from_byte(3), Some(ManualNoiseCanceling::Strong));
    assert_eq!(AdaptiveNoiseCanceling::from_byte(0), Some(AdaptiveNoiseCanceling::LowNoise));
    assert_eq!(MultiSceneNoiseCanceling::from_byte(2), Some(MultiSceneNoiseCanceling::Transport));
    assert_eq!(A3959NoiseCancelingMode::from_byte(1), Some(A3959NoiseCancelingMode::Adaptive));
    assert_eq!(HostDevice::from_byte(0), Some(HostDevice::Left));
}

#[test]
fn button_configuration_round_trip() {
    let slot = |is_enabled, action| ButtonSlot { is_enabled, action };
    let buttons = A3959MultiButtonConfiguration {
        left_single_press: slot(true, ButtonAction::VolumeUp),
        left_double_press: slot(true, ButtonAction::VolumeDown),
        left_long_press: slot(false, ButtonAction::PreviousSong),
        right_single_press: slot(true, ButtonAction::NextSong),
        right_double_press: slot(true, ButtonAction::AmbientSoundMode),
        right_long_press: slot(false, ButtonAction::PlayPause),
    };
    let bytes = buttons.bytes();
    assert_eq!(bytes, vec![1, 0, 1, 1, 0, 2, 1, 3, 1, 4, 0, 6]);
    assert_eq!(A3959MultiButtonConfiguration::take(&bytes), Ok((&[][..], buttons)));
    let mut bad = bytes.clone();
    bad[11] = 9;
    assert_eq!(A3959MultiButtonConfiguration::take(&bad), Err(DecodeError::Malformed));
    assert_eq!(A3959MultiButtonConfiguration::take(&bytes[..11]), Err(DecodeError::Incomplete));
    assert_eq!(ButtonSlot::take(&[0, 7]), Err(DecodeError::Malformed));
}

#[test]
fn sound_modes_pack_two_strengths_in_one_byte() {
    let modes = A3959SoundModes {
        ambient_sound_mode: AmbientSoundMode::NoiseCanceling,
        manual_noise_canceling: ManualNoiseCanceling::Moderate,
        adaptive_noise_canceling: AdaptiveNoiseCanceling::MediumNoise,
        transparency_mode: TransparencyMode::VocalMode,
        noise_canceling_mode: A3959NoiseCancelingMode::MultiScene,
        wind_noise_suppression: true,
        adaptive_sensitivity_level: SensitivityLevel::new(7).unwrap(),
        multi_scene_noise_canceling: MultiSceneNoiseCanceling::Indoor,
    };
    let bytes = modes.bytes();
    assert_eq!(bytes, vec![0, 0x21, 1, 2, 1, 7, 0]);
    assert_eq!(A3959SoundModes::take(&bytes), Ok((&[][..], modes)));
}

#[test]
fn sound_modes_reject_unknown_fields() {
    let good = [0u8, 0x21, 1, 2, 1, 7, 0];
    assert!(A3959SoundModes::take(&good).is_ok());
    for (position, byte) in [(0, 3u8), (1, 0x01), (1, 0x23), (1, 0x41), (2, 2), (3, 3), (5, 11), (6, 3)] {
        let mut bad = good;
        bad[position] = byte;
        assert_eq!(A3959SoundModes::take(&bad), Err(DecodeError::Malformed));
    }
    assert_eq!(A3959SoundModes::take(&good[..6]), Err(DecodeError::Incomplete));
    assert_eq!(SensitivityLevel::new(11), None);
    assert_eq!(SensitivityLevel::new(10).unwrap().level(), 10);
}
