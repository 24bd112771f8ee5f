use openscq30_lib::api::settings::equalizer::Equalizer;
use openscq30_lib::api::settings::names::{from_name, same_text, NamedVariants};
use openscq30_lib::api::settings::range::Range;
use openscq30_lib::api::settings::select::Select;
use openscq30_lib::api::settings::text::{integer_to_string, list_to_string};
use openscq30_lib::api::settings::value::{Value, ValueError};
use openscq30_lib::api::settings::{
    localize_value, CategoryId, Setting, SettingError, SettingId,
};
use openscq30_lib::devices::soundcore::a3959::packets::A3959Request;
use openscq30_lib::devices::soundcore::a3959::state::A3959State;
use openscq30_lib::devices::soundcore::a3959::{new_device, request_packet};
use openscq30_lib::devices::soundcore::standard::packets::parsing::DecodeError;
use openscq30_lib::devices::soundcore::standard::packets::{Command, Packet};
use openscq30_lib::devices::soundcore::a3959::structures::ButtonAction;
use openscq30_lib::devices::soundcore::standard::structures::{
    AmbientSoundMode, HostDevice, TransparencyMode,
};

fn body_of(touch_tone: bool, gaming_mode: bool) -> Vec<u8> {
    let mut body = vec![1, 1, 4, 5, 0, 1];
    body.extend_from_slice(b"02.1502.16");
    body.extend_from_slice(b"3959ABCDEF012345");
    body.extend_from_slice(&[196, 216, 236, 0, 20, 40, 60, 80, 100, 120]);
    body.extend_from_slice(&[1, 2, 3, 4, 5, 6, 7, 8, 9, 128]);
    body.push(0);
    body.extend_from_slice(&[1, 0, 1, 1, 0, 2, 1, 3, 1, 4, 0, 6]);
    body.push(5);
    body.extend_from_slice(&[0, 0x21, 1, 2, 1, 7, 0]);
    body.push(0);
    body.push(touch_tone as u8);
    body.extend_from_slice(&[0, 0]);
    body.extend_from_slice(&[1, 3, 0, gaming_mode as u8]);
    body.extend_from_slice(&[0; 12]);
    body
}

fn sample_state() -> A3959State {
    A3959State::from_state_update(&body_of(true, false)).unwrap()
}

fn strings(items: &[&str]) -> Vec<String> {
    items.iter().map(|item| item.to_string()).collect()
}

fn fruit() -> Select {
    Select::new(strings(&["apple", "pear", "plum"]), strings(&["Apfel", "Birne", "Pflaume"])).unwrap()
}

#[test]
fn setting_names_are_stable() {
    assert_eq!(SettingId::AmbientSoundMode.name(), "ambientSoundMode");
    assert_eq!(SettingId::PresetEqualizerProfile.name(), "presetEqualizerProfile");
    assert_eq!(
        SettingId::AdaptiveNoiseCancelingSensitivityLevel.name(),
        "adaptiveNoiseCancelingSensitivityLevel"
    );
    assert_eq!(SettingId::TwsStatus.name(), "twsStatus");
    assert_eq!(SettingId::StateUpdatePacket.name(), "stateUpdatePacket");
    assert_eq!(SettingId::MultiSceneNoiseCanceling.name(), "multiSceneNoiseCanceling");
    assert_eq!(SettingId::GamingMode.name(), "gamingMode");
    assert_eq!(CategoryId::ButtonConfiguration.name(), "buttonConfiguration");
    assert_eq!(CategoryId::General.name(), "general");
    let all = SettingId::variants();
    assert_eq!(all.len(), 37);
    assert_eq!(all[0], SettingId::AmbientSoundMode);
    assert_eq!(all[33], SettingId::MultiSceneNoiseCanceling);
    assert_eq!(CategoryId::variants().len(), 5);
}

#[test]
fn every_setting_is_found_again_by_its_name() {
    let all = SettingId::variants();
    for (i, id) in all.iter().enumerate() {
        assert_eq!(from_name::<SettingId>(id.name()), Some(*id));
        for other in &all[i + 1..] {
            assert_ne!(id.name(), other.name());
        }
    }
    for category in CategoryId::variants() {
        assert_eq!(from_name::<CategoryId>(category.name()), Some(category));
    }
    assert_eq!(from_name::<SettingId>("AmbientSoundMode"), None);
    assert_eq!(from_name::<SettingId>("ambientSoundMod"), None);
    assert_eq!(from_name::<SettingId>(""), None);
    assert_eq!(from_name::<CategoryId>("ambientSoundMode"), None);
    assert_eq!(from_name::<ButtonAction>("playPause"), Some(ButtonAction::PlayPause));
    assert_eq!(from_name::<HostDevice>("right"), Some(HostDevice::Right));
}

#[test]
fn same_text_compares_characters() {
    assert!(same_text("", ""));
    assert!(same_text("preset", "preset"));
    assert!(!same_text("preset", "presez"));
    assert!(!same_text("preset", "presets"));
    assert!(same_text("größe", "größe"));
    assert!(!same_text("größe", "grösse"));
}

#[test]
fn numbers_are_written_in_decimal() {
    assert_eq!(integer_to_string(0), "0");
    assert_eq!(integer_to_string(7), "7");
    assert_eq!(integer_to_string(10), "10");
    assert_eq!(integer_to_string(-1), "-1");
    assert_eq!(integer_to_string(1234567890), "1234567890");
    assert_eq!(integer_to_string(i32::MAX), "2147483647");
    assert_eq!(integer_to_string(i32::MIN), "-2147483648");
    assert_eq!(list_to_string(&vec![]), "[]");
    assert_eq!(list_to_string(&vec![5]), "[5]");
    assert_eq!(list_to_string(&vec![-60, 0, 134]), "[-60, 0, 134]");
}

#[test]
fn values_are_written_out() {
    assert_eq!(Value::Bool(true).to_string(), "true");
    assert_eq!(Value::Bool(false).to_string(), "false");
    assert_eq!(Value::U16(65535).to_string(), "65535");
    assert_eq!(Value::OptionalU16(Some(12)).to_string(), "12");
    assert_eq!(Value::OptionalU16(None).to_string(), "");
    assert_eq!(Value::I32(-42).to_string(), "-42");
    assert_eq!(Value::I16Vec(vec![1, -2]).to_string(), "[1, -2]");
    assert_eq!(Value::String("plain".to_string()).to_string(), "plain");
    assert_eq!(Value::OptionalString(Some("x".to_string())).to_string(), "x");
    assert_eq!(Value::OptionalString(None).to_string(), "");
}

#[test]
fn values_as_optional_text() {
    assert_eq!(Value::String("a".to_string()).try_as_optional_str(), Ok(Some("a")));
    assert_eq!(Value::OptionalString(Some("b".to_string())).try_as_optional_str(), Ok(Some("b")));
    assert_eq!(Value::OptionalString(None).try_as_optional_str(), Ok(None));
    assert_eq!(Value::Bool(true).try_as_optional_str(), Err(ValueError::WrongType));
    assert_eq!(Value::I32(1).try_as_optional_str(), Err(ValueError::WrongType));
    assert_eq!(Value::Bool(true).try_as_bool(), Ok(true));
    assert_eq!(Value::I32(1).try_as_bool(), Err(ValueError::WrongType));
    assert_eq!(Value::I32(-3).try_as_i32(), Ok(-3));
    assert_eq!(Value::Bool(false).try_as_i32(), Err(ValueError::WrongType));
}

#[test]
fn value_of_each_kind_of_setting() {
    assert_eq!(Value::from(Setting::Toggle { value: true }), Value::Bool(true));
    assert_eq!(
        Value::from(Setting::I32Range { setting: Range { min: 0, max: 10, step: 1 }, value: 3 }),
        Value::I32(3)
    );
    assert_eq!(
        Value::from(Setting::Select { setting: fruit(), value: "pear".to_string() }),
        Value::String("pear".to_string())
    );
    assert_eq!(
        Value::from(Setting::OptionalSelect { setting: fruit(), value: None }),
        Value::OptionalString(None)
    );
    assert_eq!(
        Value::from(Setting::ModifiableSelect { setting: fruit(), value: Some("plum".to_string()) }),
        Value::OptionalString(Some("plum".to_string()))
    );
    let equalizer = Equalizer { band_hz: vec![100, 200], fraction_digits: 1, min: -120, max: 134 };
    assert_eq!(
        Value::from(Setting::Equalizer { setting: equalizer, value: vec![5, -5] }),
        Value::I16Vec(vec![5, -5])
    );
    assert_eq!(
        Value::from(Setting::Information {
            value: "raw".to_string(),
            translated_value: "shown".to_string()
        }),
        Value::String("raw".to_string())
    );
}

#[test]
fn label_of_a_selection_is_found_by_position() {
    let select = Setting::Select { setting: fruit(), value: "apple".to_string() };
    let optional = Setting::OptionalSelect { setting: fruit(), value: None };
    let modifiable = Setting::ModifiableSelect { setting: fruit(), value: None };
    let pear = Value::String("pear".to_string());
    assert_eq!(localize_value(Some(&select), &pear, "none"), "Birne");
    assert_eq!(localize_value(Some(&optional), &pear, "none"), "Birne");
    assert_eq!(localize_value(Some(&modifiable), &pear, "none"), "Birne");
    let plum = Value::OptionalString(Some("plum".to_string()));
    assert_eq!(localize_value(Some(&select), &plum, "none"), "Pflaume");
    assert_eq!(localize_value(Some(&optional), &Value::OptionalString(None), "keine"), "keine");
    let kiwi = Value::String("kiwi".to_string());
    assert_eq!(localize_value(Some(&select), &kiwi, "keine"), "keine");
    assert_eq!(localize_value(Some(&select), &Value::I32(12), "none"), "12");
    assert_eq!(localize_value(Some(&select), &Value::Bool(true), "none"), "true");
    assert_eq!(localize_value(None, &pear, "none"), "pear");
    let toggle = Setting::Toggle { value: false };
    assert_eq!(localize_value(Some(&toggle), &pear, "none"), "pear");
    assert_eq!(localize_value(Some(&toggle), &Value::I16Vec(vec![1, 2]), "none"), "[1, 2]");
}

#[test]
fn label_of_the_first_of_equal_options_and_of_a_missing_label() {
    let doubled = Select {
        options: strings(&["a", "b", "a"]),
        localized_options: strings(&["first", "second", "third"]),
    };
    assert_eq!(doubled.position("a"), Some(0));
    assert_eq!(doubled.position("b"), Some(1));
    assert_eq!(doubled.position("c"), None);
    let setting = Setting::Select { setting: doubled, value: "a".to_string() };
    assert_eq!(localize_value(Some(&setting), &Value::String("a".to_string()), "none"), "first");
    let short = Select { options: strings(&["a", "b"]), localized_options: strings(&["only"]) };
    assert_eq!(short.localized_option(0).map(|label| label.as_str()), Some("only"));
    assert_eq!(short.localized_option(1), None);
    let setting = Setting::OptionalSelect { setting: short, value: None };
    assert_eq!(localize_value(Some(&setting), &Value::String("b".to_string()), "none"), "none");
    assert_eq!(Select::new(strings(&["a", "b"]), strings(&["only"])), None);
}

#[test]
fn selects_from_enumerations() {
    let setting = Setting::select_from_enum_all_variants(TransparencyMode::VocalMode);
    assert_eq!(
        setting,
        Setting::Select {
            setting: Select {
                options: strings(&["fullyTransparent", "vocalMode"]),
                localized_options: strings(&["fullyTransparent", "vocalMode"]),
            },
            value: "vocalMode".to_string(),
        }
    );
    let setting = Setting::optional_select_from_enum_all_variants(Some(HostDevice::Left));
    assert_eq!(
        setting,
        Setting::OptionalSelect {
            setting: Select {
                options: strings(&["left", "right"]),
                localized_options: strings(&["left", "right"]),
            },
            value: Some("left".to_string()),
        }
    );
    let setting = Setting::optional_select_from_enum_all_variants::<HostDevice>(None);
    assert_eq!(Value::from(setting), Value::OptionalString(None));
    let some = [AmbientSoundMode::Normal, AmbientSoundMode::Transparency];
    let setting = Setting::select_from_enum(&some, AmbientSoundMode::Transparency);
    assert_eq!(
        setting,
        Setting::Select {
            setting: Select {
                options: strings(&["normal", "transparency"]),
                localized_options: strings(&["normal", "transparency"]),
            },
            value: "transparency".to_string(),
        }
    );
}

#[test]
fn requested_values_are_checked_against_the_domain() {
    let range = Setting::I32Range { setting: Range { min: -4, max: 10, step: 2 }, value: 0 };
    assert_eq!(range.check_value(&Value::I32(-4)), Ok(()));
    assert_eq!(range.check_value(&Value::I32(10)), Ok(()));
    assert_eq!(range.check_value(&Value::I32(3)), Err(SettingError::OutOfDomain));
    assert_eq!(range.check_value(&Value::I32(12)), Err(SettingError::OutOfDomain));
    assert_eq!(range.check_value(&Value::I32(-6)), Err(SettingError::OutOfDomain));
    assert_eq!(range.check_value(&Value::Bool(true)), Err(SettingError::WrongKind));
    let still = Setting::I32Range { setting: Range { min: 0, max: 10, step: 0 }, value: 0 };
    assert_eq!(still.check_value(&Value::I32(0)), Err(SettingError::OutOfDomain));
    let select = Setting::Select { setting: fruit(), value: "apple".to_string() };
    assert_eq!(select.check_value(&Value::String("plum".to_string())), Ok(()));
    assert_eq!(
        select.check_value(&Value::String("kiwi".to_string())),
        Err(SettingError::OutOfDomain)
    );
    assert_eq!(select.check_value(&Value::OptionalString(None)), Err(SettingError::WrongKind));
    let optional = Setting::OptionalSelect { setting: fruit(), value: None };
    assert_eq!(optional.check_value(&Value::OptionalString(None)), Ok(()));
    assert_eq!(optional.check_value(&Value::OptionalString(Some("pear".to_string()))), Ok(()));
    assert_eq!(
        optional.check_value(&Value::OptionalString(Some("kiwi".to_string()))),
        Err(SettingError::OutOfDomain)
    );
    assert_eq!(
        optional.check_value(&Value::String("pear".to_string())),
        Err(SettingError::WrongKind)
    );
    let equalizer = Setting::Equalizer {
        setting: Equalizer { band_hz: vec![100, 200], fraction_digits: 1, min: -120, max: 134 },
        value: vec![0, 0],
    };
    assert_eq!(equalizer.check_value(&Value::I16Vec(vec![-120, 134])), Ok(()));
    assert_eq!(equalizer.check_value(&Value::I16Vec(vec![0])), Err(SettingError::OutOfDomain));
    assert_eq!(
        equalizer.check_value(&Value::I16Vec(vec![0, 135])),
        Err(SettingError::OutOfDomain)
    );
    assert_eq!(equalizer.check_value(&Value::I32(0)), Err(SettingError::WrongKind));
    assert_eq!(Setting::toggle(true).check_value(&Value::Bool(false)), Ok(()));
    assert_eq!(Setting::toggle(true).check_value(&Value::U16(1)), Err(SettingError::WrongKind));
}

#[test]
fn state_update_shows_touch_tone_and_gaming_mode_as_toggles() {
    let state = A3959State::from_state_update(&body_of(true, false)).unwrap();
    let touch_tone = state.setting(SettingId::TouchTone).unwrap();
    let gaming_mode = state.setting(SettingId::GamingMode).unwrap();
    assert!(matches!(touch_tone, Setting::Toggle { .. }));
    assert!(matches!(gaming_mode, Setting::Toggle { .. }));
    assert_eq!(Value::from(touch_tone), Value::Bool(true));
    assert_eq!(Value::from(gaming_mode), Value::Bool(false));
    let state = A3959State::from_state_update(&body_of(false, true)).unwrap();
    assert_eq!(Value::from(state.setting(SettingId::TouchTone).unwrap()), Value::Bool(false));
    assert_eq!(Value::from(state.setting(SettingId::GamingMode).unwrap()), Value::Bool(true));
}

#[test]
fn state_is_shown_as_settings() {
    let state = sample_state();
    assert_eq!(
        Value::from(state.setting(SettingId::AmbientSoundMode).unwrap()),
        Value::String("noiseCanceling".to_string())
    );
    assert_eq!(
        state.setting(SettingId::AdaptiveNoiseCancelingSensitivityLevel),
        Some(Setting::I32Range { setting: Range { min: 0, max: 10, step: 1 }, value: 7 })
    );
    assert_eq!(
        state.setting(SettingId::SerialNumber),
        Some(Setting::Information {
            value: "3959ABCDEF012345".to_string(),
            translated_value: "3959ABCDEF012345".to_string()
        })
    );
    assert_eq!(
        Value::from(state.setting(SettingId::FirmwareVersionRight).unwrap()),
        Value::String("02.16".to_string())
    );
    assert_eq!(
        Value::from(state.setting(SettingId::BatteryLevelRight).unwrap()),
        Value::String("5".to_string())
    );
    assert_eq!(
        Value::from(state.setting(SettingId::IsChargingRight).unwrap()),
        Value::String("true".to_string())
    );
    assert_eq!(
        Value::from(state.setting(SettingId::HostDevice).unwrap()),
        Value::String("right".to_string())
    );
    assert_eq!(
        Value::from(state.setting(SettingId::AdaptiveNoiseCanceling).unwrap()),
        Value::String("mediumNoise".to_string())
    );
    assert_eq!(
        Value::from(state.setting(SettingId::LeftSinglePress).unwrap()),
        Value::OptionalString(Some("volumeUp".to_string()))
    );
    assert_eq!(
        Value::from(state.setting(SettingId::LeftLongPress).unwrap()),
        Value::OptionalString(None)
    );
    assert_eq!(
        Value::from(state.setting(SettingId::VolumeAdjustments).unwrap()),
        Value::I16Vec(vec![-60, -40, -20, 0, 20, 40, 60, 80, 100, 120])
    );
    assert_eq!(Value::from(state.setting(SettingId::NormalModeInCycle).unwrap()), Value::Bool(true));
    assert_eq!(
        Value::from(state.setting(SettingId::TransparencyModeInCycle).unwrap()),
        Value::Bool(false)
    );
    assert_eq!(state.setting(SettingId::PresetEqualizerProfile), None);
    assert_eq!(state.setting(SettingId::StateUpdatePacket), None);
    assert_eq!(state.gains(), vec![-60, -40, -20, 0, 20, 40, 60, 80, 100, 120]);
}

#[test]
fn every_projected_value_lies_in_its_settings_domain() {
    let state = sample_state();
    let settings = state.current_settings();
    assert_eq!(settings.len(), 30);
    let mut previous: Option<SettingId> = None;
    for (id, setting) in &settings {
        assert_eq!(state.setting(*id).as_ref(), Some(setting));
        assert_eq!(setting.check_value(&Value::from(setting.clone())), Ok(()));
        if let Some(previous) = previous {
            assert!(previous < *id);
        }
        previous = Some(*id);
    }
    for id in SettingId::variants() {
        assert_eq!(state.setting(id).is_some(), settings.iter().any(|(listed, _)| *listed == id));
    }
}

#[test]
fn requests_are_checked_before_anything_is_sent() {
    let state = sample_state();
    assert_eq!(
        state.request(SettingId::TouchTone, &Value::Bool(false)),
        Ok(A3959Request::TouchTone(false))
    );
    assert_eq!(
        state.request(SettingId::TouchTone, &Value::I32(1)),
        Err(SettingError::WrongKind)
    );
    assert_eq!(
        state.request(SettingId::AmbientSoundMode, &Value::String("loud".to_string())),
        Err(SettingError::OutOfDomain)
    );
    assert_eq!(
        state.request(SettingId::AmbientSoundMode, &Value::OptionalString(None)),
        Err(SettingError::WrongKind)
    );
    assert_eq!(
        state.request(SettingId::AdaptiveNoiseCancelingSensitivityLevel, &Value::I32(11)),
        Err(SettingError::OutOfDomain)
    );
    assert_eq!(
        state.request(SettingId::AdaptiveNoiseCancelingSensitivityLevel, &Value::I32(-1)),
        Err(SettingError::OutOfDomain)
    );
    assert_eq!(
        state.request(SettingId::VolumeAdjustments, &Value::I16Vec(vec![0; 9])),
        Err(SettingError::OutOfDomain)
    );
    assert_eq!(
        state.request(SettingId::VolumeAdjustments, &Value::I16Vec(vec![0, 0, 0, 0, 0, 0, 0, 0, 0, 128])),
        Err(SettingError::OutOfDomain)
    );
    assert_eq!(
        state.request(SettingId::LeftLongPress, &Value::OptionalString(Some("jump".to_string()))),
        Err(SettingError::OutOfDomain)
    );
    assert_eq!(
        state.request(SettingId::SerialNumber, &Value::String("x".to_string())),
        Err(SettingError::ReadOnly)
    );
    assert_eq!(
        state.request(SettingId::PresetEqualizerProfile, &Value::Bool(true)),
        Err(SettingError::Unsupported)
    );
}

#[test]
fn a_request_changes_one_part_and_the_setting_then_holds_the_value() {
    let state = sample_state();
    let asked = [
        (SettingId::AmbientSoundMode, Value::String("transparency".to_string())),
        (SettingId::TransparencyMode, Value::String("fullyTransparent".to_string())),
        (SettingId::NoiseCancelingMode, Value::String("manual".to_string())),
        (SettingId::ManualNoiseCanceling, Value::String("strong".to_string())),
        (SettingId::MultiSceneNoiseCanceling, Value::String("transport".to_string())),
        (SettingId::WindNoiseSuppression, Value::Bool(false)),
        (SettingId::AdaptiveNoiseCancelingSensitivityLevel, Value::I32(10)),
        (SettingId::VolumeAdjustments, Value::I16Vec(vec![-128, -1, 0, 1, 2, 3, 4, 5, 6, 127])),
        (SettingId::LeftSinglePress, Value::OptionalString(None)),
        (SettingId::LeftLongPress, Value::OptionalString(Some("voiceAssistant".to_string()))),
        (SettingId::RightDoublePress, Value::OptionalString(Some("playPause".to_string()))),
        (SettingId::NormalModeInCycle, Value::Bool(false)),
        (SettingId::TransparencyModeInCycle, Value::Bool(true)),
        (SettingId::NoiseCancelingModeInCycle, Value::Bool(false)),
        (SettingId::TouchTone, Value::Bool(false)),
        (SettingId::LowBatteryPrompt, Value::Bool(true)),
        (SettingId::GamingMode, Value::Bool(true)),
    ];
    for (id, value) in asked {
        let setting = state.setting(id).unwrap();
        assert_eq!(setting.check_value(&value), Ok(()));
        let request = state.request(id, &value).unwrap();
        let target = request.target(&state);
        assert_eq!(Value::from(target.setting(id).unwrap()), value);
        let packet = request.packet();
        assert_eq!(packet.command, request.command());
        assert_eq!(packet.body, request.body());
        assert_eq!(A3959Request::decode(&packet), Some(Ok(request)));
    }
}

#[test]
fn a_request_leaves_the_other_parts() {
    let state = sample_state();
    let request = state.request(SettingId::GamingMode, &Value::Bool(true)).unwrap();
    let target = request.target(&state);
    assert!(target.gaming_mode);
    for (other, before) in state.current_settings() {
        if other != SettingId::GamingMode {
            assert_eq!(target.setting(other), Some(before));
        }
    }
    let request = state
        .request(SettingId::LeftLongPress, &Value::OptionalString(Some("nextSong".to_string())))
        .unwrap();
    let target = request.target(&state);
    assert_eq!(target.sound_modes, state.sound_modes);
    assert_eq!(target.equalizer_configuration, state.equalizer_configuration);
    assert_eq!(
        target.button_configuration.left_single_press,
        state.button_configuration.left_single_press
    );
    assert!(target.button_configuration.left_long_press.is_enabled);
}

#[test]
fn request_packets_are_bit_exact() {
    let state = sample_state();
    let device = new_device(&body_of(true, false)).unwrap();
    let packet = request_packet(&device, SettingId::GamingMode, &Value::Bool(true)).unwrap();
    assert_eq!(packet, Packet { command: Command(1, 0x85), body: vec![1] });
    let packet =
        request_packet(&device, SettingId::AmbientSoundMode, &Value::String("normal".to_string()))
            .unwrap();
    assert_eq!(packet, Packet { command: Command(6, 0x81), body: vec![2, 0x21, 1, 2, 1, 7, 0] });
    let packet =
        request_packet(&device, SettingId::NormalModeInCycle, &Value::Bool(false)).unwrap();
    assert_eq!(packet, Packet { command: Command(6, 0x82), body: vec![1] });
    let packet = request_packet(
        &device,
        SettingId::LeftLongPress,
        &Value::OptionalString(Some("nextSong".to_string())),
    )
    .unwrap();
    assert_eq!(
        packet,
        Packet { command: Command(4, 0x81), body: vec![1, 0, 1, 1, 1, 3, 1, 3, 1, 4, 0, 6] }
    );
    let gains = vec![-128, -1, 0, 1, 2, 3, 4, 5, 6, 127];
    let request = state.request(SettingId::VolumeAdjustments, &Value::I16Vec(gains)).unwrap();
    let mut body = vec![128, 255, 0, 1, 2, 3, 4, 5, 6, 127];
    body.extend_from_slice(&[128, 255, 0, 1, 2, 3, 4, 5, 6, 127]);
    assert_eq!(request.packet(), Packet { command: Command(2, 0x81), body });
    assert_eq!(
        request_packet(&device, SettingId::HostDevice, &Value::String("left".to_string())),
        Err(SettingError::ReadOnly)
    );
}

#[test]
fn requests_that_are_no_requests() {
    let stray = Packet { command: Command(1, 1), body: vec![1] };
    assert_eq!(A3959Request::decode(&stray), None);
    let empty = Packet { command: Command(1, 0x83), body: vec![] };
    assert_eq!(A3959Request::decode(&empty), Some(Err(DecodeError::Incomplete)));
    let long = Packet { command: Command(1, 0x84), body: vec![1, 0] };
    assert_eq!(A3959Request::decode(&long), Some(Err(DecodeError::TrailingData)));
    let long = Packet { command: Command(6, 0x82), body: vec![1, 0] };
    assert_eq!(A3959Request::decode(&long), Some(Err(DecodeError::TrailingData)));
    let bad = Packet { command: Command(6, 0x81), body: vec![9, 0x21, 1, 2, 1, 7, 0] };
    assert_eq!(A3959Request::decode(&bad), Some(Err(DecodeError::Malformed)));
    let flag = Packet { command: Command(1, 0x85), body: vec![7] };
    assert_eq!(A3959Request::decode(&flag), Some(Ok(A3959Request::GamingMode(true))));
}
