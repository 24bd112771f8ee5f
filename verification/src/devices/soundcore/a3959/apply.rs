//! From a requested value of a setting to the packet that asks for it.

use vstd::prelude::*;

use crate::api::settings::names::{from_name, lemma_from_name, spec_from_name, NamedVariants};
use crate::api::settings::select::names_of;
use crate::api::settings::value::Value;
use crate::api::settings::{optional_select_view, select_view, SettingError, SettingId, SettingView};
use crate::devices::soundcore::a3959::settings::{selected_action, spec_band_hz};
use crate::devices::soundcore::a3959::packets::A3959Request;
use crate::devices::soundcore::a3959::state::A3959State;
use crate::devices::soundcore::a3959::structures::{
    A3959MultiButtonConfiguration, A3959NoiseCancelingMode, A3959SoundModes, ButtonAction,
    ButtonSlot,
};
use crate::devices::soundcore::standard::packets::parsing::Layout;
use crate::devices::soundcore::standard::structures::sound_modes::MAX_SENSITIVITY_LEVEL;
use crate::devices::soundcore::standard::structures::{
    AmbientSoundMode, AmbientSoundModeCycle, EqualizerConfiguration, ManualNoiseCanceling,
    MultiSceneNoiseCanceling, SensitivityLevel, TransparencyMode,
};

verus! {

/// The variant that a value names: the value must be a text, and the text
/// the name of a variant.
pub open spec fn spec_named<T: NamedVariants>(value: Value) -> Result<T, SettingError> {
    match value {
        Value::String(text) => match spec_from_name::<T>(text@) {
            Some(variant) => Ok(variant),
            None => Err(SettingError::OutOfDomain),
        },
        _ => Err(SettingError::WrongKind),
    }
}

/// Exec counterpart of [`spec_named`].
pub fn named<T: NamedVariants>(value: &Value) -> (r: Result<T, SettingError>)
    ensures
        r == spec_named::<T>(*value),
{
    match value {
        Value::String(text) => match from_name::<T>(text.as_str()) {
            Some(variant) => Ok(variant),
            None => Err(SettingError::OutOfDomain),
        },
        _ => Err(SettingError::WrongKind),
    }
}

/// The truth value that a value holds.
pub open spec fn spec_flag(value: Value) -> Result<bool, SettingError> {
    match value {
        Value::Bool(flag) => Ok(flag),
        _ => Err(SettingError::WrongKind),
    }
}

/// Exec counterpart of [`spec_flag`].
pub fn flag(value: &Value) -> (r: Result<bool, SettingError>)
    ensures
        r == spec_flag(*value),
{
    match value {
        Value::Bool(flag) => Ok(*flag),
        _ => Err(SettingError::WrongKind),
    }
}

/// The button slot that a value asks for: the named action, enabled, or the
/// slot as it is, disabled, where the value selects nothing.
pub open spec fn spec_slot(slot: ButtonSlot, value: Value) -> Result<ButtonSlot, SettingError> {
    match value {
        Value::OptionalString(Some(text)) => match spec_from_name::<ButtonAction>(text@) {
            Some(action) => Ok(ButtonSlot { is_enabled: true, action }),
            None => Err(SettingError::OutOfDomain),
        },
        Value::OptionalString(None) => Ok(ButtonSlot { is_enabled: false, action: slot.action }),
        _ => Err(SettingError::WrongKind),
    }
}

/// Exec counterpart of [`spec_slot`].
pub fn slot_for(slot: &ButtonSlot, value: &Value) -> (r: Result<ButtonSlot, SettingError>)
    ensures
        r == spec_slot(*slot, *value),
{
    match value {
        Value::OptionalString(Some(text)) => match from_name::<ButtonAction>(text.as_str()) {
            Some(action) => Ok(ButtonSlot { is_enabled: true, action }),
            None => Err(SettingError::OutOfDomain),
        },
        Value::OptionalString(None) => Ok(ButtonSlot { is_enabled: false, action: slot.action }),
        _ => Err(SettingError::WrongKind),
    }
}

/// The sensitivity level that a value asks for.
pub open spec fn spec_level(value: Value) -> Result<SensitivityLevel, SettingError> {
    match value {
        Value::I32(number) => if 0 <= number <= MAX_SENSITIVITY_LEVEL {
            Ok(SensitivityLevel::spec_new(number as u8))
        } else {
            Err(SettingError::OutOfDomain)
        },
        _ => Err(SettingError::WrongKind),
    }
}

/// Exec counterpart of [`spec_level`].
pub fn level_for(value: &Value) -> (r: Result<SensitivityLevel, SettingError>)
    ensures
        r == spec_level(*value),
{
    match value {
        Value::I32(number) => {
            if 0 <= *number && *number <= MAX_SENSITIVITY_LEVEL as i32 {
                match SensitivityLevel::new(*number as u8) {
                    Some(level) => Ok(level),
                    None => Err(SettingError::OutOfDomain),
                }
            } else {
                Err(SettingError::OutOfDomain)
            }
        },
        _ => Err(SettingError::WrongKind),
    }
}

/// Whether gains are one per band, each a signed byte.
pub open spec fn gains_fit(gains: Seq<i16>) -> bool {
    &&& gains.len() == 10
    &&& forall|band: int| 0 <= band < gains.len() ==> -128 <= #[trigger] gains[band] <= 127
}

/// The equalizer that a value asks for: every channel with the gains given.
pub open spec fn spec_equalizer(value: Value) -> Result<
    EqualizerConfiguration<2, 10>,
    SettingError,
> {
    match value {
        Value::I16Vec(gains) => if gains_fit(gains@) {
            Ok(
                EqualizerConfiguration::<2, 10>::spec_uniform(
                    Seq::new(10, |band: int| gains@[band] as i8),
                ),
            )
        } else {
            Err(SettingError::OutOfDomain)
        },
        _ => Err(SettingError::WrongKind),
    }
}

/// Exec counterpart of [`spec_equalizer`].
pub fn equalizer_for(value: &Value) -> (r: Result<EqualizerConfiguration<2, 10>, SettingError>)
    ensures
        r == spec_equalizer(*value),
{
    broadcast use vstd::array::group_array_axioms;

    match value {
        Value::I16Vec(gains) => {
            if gains.len() != 10 {
                return Err(SettingError::OutOfDomain);
            }
            let mut row: [i8; 10] = [0i8; 10];
            let mut band: usize = 0;
            while band < 10
                invariant
                    band <= 10,
                    gains@.len() == 10,
                    *value == Value::I16Vec(*gains),
                    forall|b: int| 0 <= b < band ==> -128 <= #[trigger] gains@[b] <= 127,
                    forall|b: int| 0 <= b < band ==> row@[b] == gains@[b] as i8,
                decreases 10 - band,
            {
                let gain = gains[band];
                if gain < -128 || gain > 127 {
                    assert(!gains_fit(gains@));
                    return Err(SettingError::OutOfDomain);
                }
                row[band] = gain as i8;
                band = band + 1;
            }
            assert(gains_fit(gains@));
            assert(row@ =~= Seq::new(10, |band: int| gains@[band] as i8));
            Ok(EqualizerConfiguration::uniform(row))
        },
        _ => Err(SettingError::WrongKind),
    }
}

impl A3959State {
    /// The request that asks the earbuds to give the setting `id` the value
    /// `value`, or why there is no such request. Nothing is sent for a
    /// setting that the model does not have or only shows, nor for a value of
    /// the wrong kind or outside the setting's domain.
    pub open spec fn spec_request(self, id: SettingId, value: Value) -> Result<
        A3959Request,
        SettingError,
    > {
        match id {
            SettingId::AmbientSoundMode => match spec_named::<AmbientSoundMode>(value) {
                Ok(ambient_sound_mode) => Ok(
                    A3959Request::SoundModes(
                        A3959SoundModes { ambient_sound_mode, ..self.sound_modes },
                    ),
                ),
                Err(e) => Err(e),
            },
            SettingId::TransparencyMode => match spec_named::<TransparencyMode>(value) {
                Ok(transparency_mode) => Ok(
                    A3959Request::SoundModes(
                        A3959SoundModes { transparency_mode, ..self.sound_modes },
                    ),
                ),
                Err(e) => Err(e),
            },
            SettingId::NoiseCancelingMode => match spec_named::<A3959NoiseCancelingMode>(value) {
                Ok(noise_canceling_mode) => Ok(
                    A3959Request::SoundModes(
                        A3959SoundModes { noise_canceling_mode, ..self.sound_modes },
                    ),
                ),
                Err(e) => Err(e),
            },
            SettingId::ManualNoiseCanceling => match spec_named::<ManualNoiseCanceling>(value) {
                Ok(manual_noise_canceling) => Ok(
                    A3959Request::SoundModes(
                        A3959SoundModes { manual_noise_canceling, ..self.sound_modes },
                    ),
                ),
                Err(e) => Err(e),
            },
            SettingId::MultiSceneNoiseCanceling => match spec_named::<MultiSceneNoiseCanceling>(
                value,
            ) {
                Ok(multi_scene_noise_canceling) => Ok(
                    A3959Request::SoundModes(
                        A3959SoundModes { multi_scene_noise_canceling, ..self.sound_modes },
                    ),
                ),
                Err(e) => Err(e),
            },
            SettingId::WindNoiseSuppression => match spec_flag(value) {
                Ok(wind_noise_suppression) => Ok(
                    A3959Request::SoundModes(
                        A3959SoundModes { wind_noise_suppression, ..self.sound_modes },
                    ),
                ),
                Err(e) => Err(e),
            },
            SettingId::AdaptiveNoiseCancelingSensitivityLevel => match spec_level(value) {
                Ok(adaptive_sensitivity_level) => Ok(
                    A3959Request::SoundModes(
                        A3959SoundModes { adaptive_sensitivity_level, ..self.sound_modes },
                    ),
                ),
                Err(e) => Err(e),
            },
            SettingId::VolumeAdjustments => match spec_equalizer(value) {
                Ok(equalizer) => Ok(A3959Request::Equalizer(equalizer)),
                Err(e) => Err(e),
            },
            SettingId::LeftSinglePress => match spec_slot(
                self.button_configuration.left_single_press,
                value,
            ) {
                Ok(left_single_press) => Ok(
                    A3959Request::ButtonConfiguration(
                        A3959MultiButtonConfiguration {
                            left_single_press,
                            ..self.button_configuration
                        },
                    ),
                ),
                Err(e) => Err(e),
            },
            SettingId::LeftDoublePress => match spec_slot(
                self.button_configuration.left_double_press,
                value,
            ) {
                Ok(left_double_press) => Ok(
                    A3959Request::ButtonConfiguration(
                        A3959MultiButtonConfiguration {
                            left_double_press,
                            ..self.button_configuration
                        },
                    ),
                ),
                Err(e) => Err(e),
            },
            SettingId::LeftLongPress => match spec_slot(
                self.button_configuration.left_long_press,
                value,
            ) {
                Ok(left_long_press) => Ok(
                    A3959Request::ButtonConfiguration(
                        A3959MultiButtonConfiguration {
                            left_long_press,
                            ..self.button_configuration
                        },
                    ),
                ),
                Err(e) => Err(e),
            },
            SettingId::RightSinglePress => match spec_slot(
                self.button_configuration.right_single_press,
                value,
            ) {
                Ok(right_single_press) => Ok(
                    A3959Request::ButtonConfiguration(
                        A3959MultiButtonConfiguration {
                            right_single_press,
                            ..self.button_configuration
                        },
                    ),
                ),
                Err(e) => Err(e),
            },
            SettingId::RightDoublePress => match spec_slot(
                self.button_configuration.right_double_press,
                value,
            ) {
                Ok(right_double_press) => Ok(
                    A3959Request::ButtonConfiguration(
                        A3959MultiButtonConfiguration {
                            right_double_press,
                            ..self.button_configuration
                        },
                    ),
                ),
                Err(e) => Err(e),
            },
            SettingId::RightLongPress => match spec_slot(
                self.button_configuration.right_long_press,
                value,
            ) {
                Ok(right_long_press) => Ok(
                    A3959Request::ButtonConfiguration(
                        A3959MultiButtonConfiguration {
                            right_long_press,
                            ..self.button_configuration
                        },
                    ),
                ),
                Err(e) => Err(e),
            },
            SettingId::NormalModeInCycle => match spec_flag(value) {
                Ok(normal_mode) => Ok(
                    A3959Request::AmbientSoundModeCycle(
                        AmbientSoundModeCycle { normal_mode, ..self.ambient_sound_mode_cycle },
                    ),
                ),
                Err(e) => Err(e),
            },
            SettingId::TransparencyModeInCycle => match spec_flag(value) {
                Ok(transparency_mode) => Ok(
                    A3959Request::AmbientSoundModeCycle(
                        AmbientSoundModeCycle {
                            transparency_mode,
                            ..self.ambient_sound_mode_cycle
                        },
                    ),
                ),
                Err(e) => Err(e),
            },
            SettingId::NoiseCancelingModeInCycle => match spec_flag(value) {
                Ok(noise_canceling_mode) => Ok(
                    A3959Request::AmbientSoundModeCycle(
                        AmbientSoundModeCycle {
                            noise_canceling_mode,
                            ..self.ambient_sound_mode_cycle
                        },
                    ),
                ),
                Err(e) => Err(e),
            },
            SettingId::TouchTone => match spec_flag(value) {
                Ok(touch_tone) => Ok(A3959Request::TouchTone(touch_tone)),
                Err(e) => Err(e),
            },
            SettingId::LowBatteryPrompt => match spec_flag(value) {
                Ok(low_battery_prompt) => Ok(A3959Request::LowBatteryPrompt(low_battery_prompt)),
                Err(e) => Err(e),
            },
            SettingId::GamingMode => match spec_flag(value) {
                Ok(gaming_mode) => Ok(A3959Request::GamingMode(gaming_mode)),
                Err(e) => Err(e),
            },
            SettingId::AdaptiveNoiseCanceling
            | SettingId::IsChargingLeft
            | SettingId::IsChargingRight
            | SettingId::BatteryLevelLeft
            | SettingId::BatteryLevelRight
            | SettingId::SerialNumber
            | SettingId::FirmwareVersionLeft
            | SettingId::FirmwareVersionRight
            | SettingId::TwsStatus
            | SettingId::HostDevice => Err(SettingError::ReadOnly),
            _ => Err(SettingError::Unsupported),
        }
    }

    /// Exec counterpart of [`A3959State::spec_request`].
    pub fn request(&self, id: SettingId, value: &Value) -> (r: Result<A3959Request, SettingError>)
        ensures
            r == self.spec_request(id, *value),
    {
        let sound_modes = self.sound_modes;
        let buttons = self.button_configuration;
        let cycle = self.ambient_sound_mode_cycle;
        match id {
            SettingId::AmbientSoundMode => match named::<AmbientSoundMode>(value) {
                Ok(ambient_sound_mode) => Ok(
                    A3959Request::SoundModes(A3959SoundModes { ambient_sound_mode, ..sound_modes }),
                ),
                Err(e) => Err(e),
            },
            SettingId::TransparencyMode => match named::<TransparencyMode>(value) {
                Ok(transparency_mode) => Ok(
                    A3959Request::SoundModes(A3959SoundModes { transparency_mode, ..sound_modes }),
                ),
                Err(e) => Err(e),
            },
            SettingId::NoiseCancelingMode => match named::<A3959NoiseCancelingMode>(value) {
                Ok(noise_canceling_mode) => Ok(
                    A3959Request::SoundModes(
                        A3959SoundModes { noise_canceling_mode, ..sound_modes },
                    ),
                ),
                Err(e) => Err(e),
            },
            SettingId::ManualNoiseCanceling => match named::<ManualNoiseCanceling>(value) {
                Ok(manual_noise_canceling) => Ok(
                    A3959Request::SoundModes(
                        A3959SoundModes { manual_noise_canceling, ..sound_modes },
                    ),
                ),
                Err(e) => Err(e),
            },
            SettingId::MultiSceneNoiseCanceling => match named::<MultiSceneNoiseCanceling>(value) {
                Ok(multi_scene_noise_canceling) => Ok(
                    A3959Request::SoundModes(
                        A3959SoundModes { multi_scene_noise_canceling, ..sound_modes },
                    ),
                ),
                Err(e) => Err(e),
            },
            SettingId::WindNoiseSuppression => match flag(value) {
                Ok(wind_noise_suppression) => Ok(
                    A3959Request::SoundModes(
                        A3959SoundModes { wind_noise_suppression, ..sound_modes },
                    ),
                ),
                Err(e) => Err(e),
            },
            SettingId::AdaptiveNoiseCancelingSensitivityLevel => match level_for(value) {
                Ok(adaptive_sensitivity_level) => Ok(
                    A3959Request::SoundModes(
                        A3959SoundModes { adaptive_sensitivity_level, ..sound_modes },
                    ),
                ),
                Err(e) => Err(e),
            },
            SettingId::VolumeAdjustments => match equalizer_for(value) {
                Ok(equalizer) => Ok(A3959Request::Equalizer(equalizer)),
                Err(e) => Err(e),
            },
            SettingId::LeftSinglePress => match slot_for(&buttons.left_single_press, value) {
                Ok(left_single_press) => Ok(
                    A3959Request::ButtonConfiguration(
                        A3959MultiButtonConfiguration { left_single_press, ..buttons },
                    ),
                ),
                Err(e) => Err(e),
            },
            SettingId::LeftDoublePress => match slot_for(&buttons.left_double_press, value) {
                Ok(left_double_press) => Ok(
                    A3959Request::ButtonConfiguration(
                        A3959MultiButtonConfiguration { left_double_press, ..buttons },
                    ),
                ),
                Err(e) => Err(e),
            },
            SettingId::LeftLongPress => match slot_for(&buttons.left_long_press, value) {
                Ok(left_long_press) => Ok(
                    A3959Request::ButtonConfiguration(
                        A3959MultiButtonConfiguration { left_long_press, ..buttons },
                    ),
                ),
                Err(e) => Err(e),
            },
            SettingId::RightSinglePress => match slot_for(&buttons.right_single_press, value) {
                Ok(right_single_press) => Ok(
                    A3959Request::ButtonConfiguration(
                        A3959MultiButtonConfiguration { right_single_press, ..buttons },
                    ),
                ),
                Err(e) => Err(e),
            },
            SettingId::RightDoublePress => match slot_for(&buttons.right_double_press, value) {
                Ok(right_double_press) => Ok(
                    A3959Request::ButtonConfiguration(
                        A3959MultiButtonConfiguration { right_double_press, ..buttons },
                    ),
                ),
                Err(e) => Err(e),
            },
            SettingId::RightLongPress => match slot_for(&buttons.right_long_press, value) {
                Ok(right_long_press) => Ok(
                    A3959Request::ButtonConfiguration(
                        A3959MultiButtonConfiguration { right_long_press, ..buttons },
                    ),
                ),
                Err(e) => Err(e),
            },
            SettingId::NormalModeInCycle => match flag(value) {
                Ok(normal_mode) => Ok(
                    A3959Request::AmbientSoundModeCycle(
                        AmbientSoundModeCycle { normal_mode, ..cycle },
                    ),
                ),
                Err(e) => Err(e),
            },
            SettingId::TransparencyModeInCycle => match flag(value) {
                Ok(transparency_mode) => Ok(
                    A3959Request::AmbientSoundModeCycle(
                        AmbientSoundModeCycle { transparency_mode, ..cycle },
                    ),
                ),
                Err(e) => Err(e),
            },
            SettingId::NoiseCancelingModeInCycle => match flag(value) {
                Ok(noise_canceling_mode) => Ok(
                    A3959Request::AmbientSoundModeCycle(
                        AmbientSoundModeCycle { noise_canceling_mode, ..cycle },
                    ),
                ),
                Err(e) => Err(e),
            },
            SettingId::TouchTone => match flag(value) {
                Ok(touch_tone) => Ok(A3959Request::TouchTone(touch_tone)),
                Err(e) => Err(e),
            },
            SettingId::LowBatteryPrompt => match flag(value) {
                Ok(low_battery_prompt) => Ok(A3959Request::LowBatteryPrompt(low_battery_prompt)),
                Err(e) => Err(e),
            },
            SettingId::GamingMode => match flag(value) {
                Ok(gaming_mode) => Ok(A3959Request::GamingMode(gaming_mode)),
                Err(e) => Err(e),
            },
            SettingId::AdaptiveNoiseCanceling
            | SettingId::IsChargingLeft
            | SettingId::IsChargingRight
            | SettingId::BatteryLevelLeft
            | SettingId::BatteryLevelRight
            | SettingId::SerialNumber
            | SettingId::FirmwareVersionLeft
            | SettingId::FirmwareVersionRight
            | SettingId::TwsStatus
            | SettingId::HostDevice => Err(SettingError::ReadOnly),
            _ => Err(SettingError::Unsupported),
        }
    }
}

/// A text is among the names of all variants exactly when it names one.
pub proof fn lemma_named_option<T: NamedVariants>(name: Seq<char>)
    ensures
        names_of(T::spec_variants()).contains(name) <==> spec_from_name::<T>(name) is Some,
{
    let options = names_of(T::spec_variants());
    if options.contains(name) {
        let i = choose|i: int| 0 <= i < options.len() && options[i] == name;
        assert(T::spec_variants()[i].spec_name() == name);
    }
    if spec_from_name::<T>(name) is Some {
        let v = spec_from_name::<T>(name)->0;
        T::lemma_variants_complete(v);
        let i = choose|i: int| 0 <= i < T::spec_variants().len() && T::spec_variants()[i] == v;
        assert(options[i] == name);
    }
}

/// What is found by a name has that name.
pub proof fn lemma_found_has_name<T: NamedVariants>(name: Seq<char>)
    ensures
        spec_from_name::<T>(name) matches Some(v) ==> v.spec_name() == name,
{
    if spec_from_name::<T>(name) is Some {
        lemma_from_name::<T>(name, spec_from_name::<T>(name)->0);
    }
}

/// A select over all variants admits exactly the values that name a
/// variant, and the named variant, once selected, is what the select holds.
pub proof fn lemma_select_agrees<T: NamedVariants>(current: T, value: Value)
    ensures
        match select_view(current).spec_check(value) {
            Ok(_) => spec_named::<T>(value) is Ok,
            Err(e) => spec_named::<T>(value) == Err::<T, SettingError>(e),
        },
        spec_named::<T>(value) matches Ok(variant) ==> select_view(variant).holds(value),
{
    if let Value::String(text) = value {
        lemma_named_option::<T>(text@);
        lemma_found_has_name::<T>(text@);
    }
}

/// A toggle admits exactly the truth values, and holds the one it is given.
pub proof fn lemma_toggle_agrees(current: bool, value: Value)
    ensures
        match (SettingView::Toggle { value: current }).spec_check(value) {
            Ok(_) => spec_flag(value) is Ok,
            Err(e) => spec_flag(value) == Err::<bool, SettingError>(e),
        },
        spec_flag(value) matches Ok(flag) ==> (SettingView::Toggle { value: flag }).holds(value),
{
}

/// The button setting admits exactly the values that select an action or
/// nothing, and the slot that is asked for shows what was selected.
pub proof fn lemma_slot_agrees(slot: ButtonSlot, value: Value)
    ensures
        match optional_select_view(selected_action(slot)).spec_check(value) {
            Ok(_) => spec_slot(slot, value) is Ok,
            Err(e) => spec_slot(slot, value) == Err::<ButtonSlot, SettingError>(e),
        },
        spec_slot(slot, value) matches Ok(next) ==> optional_select_view(
            selected_action(next),
        ).holds(value),
{
    if let Value::OptionalString(Some(text)) = value {
        lemma_named_option::<ButtonAction>(text@);
        lemma_found_has_name::<ButtonAction>(text@);
    }
}

/// The sensitivity setting admits exactly the numbers that are levels, and
/// the level that is asked for is the number.
pub proof fn lemma_level_agrees(current: SensitivityLevel, value: Value)
    ensures
        match (SettingView::I32Range {
            min: 0,
            max: MAX_SENSITIVITY_LEVEL as int,
            step: 1,
            value: current.spec_level() as int,
        }).spec_check(value) {
            Ok(_) => spec_level(value) is Ok,
            Err(e) => spec_level(value) == Err::<SensitivityLevel, SettingError>(e),
        },
        spec_level(value) matches Ok(level) ==> level.spec_level() <= MAX_SENSITIVITY_LEVEL && (
        SettingView::I32Range {
            min: 0,
            max: MAX_SENSITIVITY_LEVEL as int,
            step: 1,
            value: level.spec_level() as int,
        }).holds(value),
{
    if let Value::I32(number) = value {
        if 0 <= number <= MAX_SENSITIVITY_LEVEL {
            SensitivityLevel::lemma_number(number as u8);
        }
    }
}

/// The equalizer setting admits exactly the lists of one signed byte per
/// band, and the first channel of the equalizer that is asked for has the
/// gains of the list.
pub proof fn lemma_equalizer_agrees(current: Seq<i16>, value: Value)
    ensures
        match (SettingView::Equalizer {
            band_hz: spec_band_hz(),
            fraction_digits: 1,
            min: -128,
            max: 127,
            value: current,
        }).spec_check(value) {
            Ok(_) => spec_equalizer(value) is Ok,
            Err(e) => spec_equalizer(value) == Err::<EqualizerConfiguration<2, 10>, SettingError>(
                e,
            ),
        },
        spec_equalizer(value) matches Ok(equalizer) ==> value matches Value::I16Vec(gains)
            && Seq::new(10, |band: int| equalizer.spec_gain(0, band) as i16) == gains@,
{
    if let Value::I16Vec(gains) = value {
        if gains_fit(gains@) {
            let row = Seq::new(10, |band: int| gains@[band] as i8);
            let equalizer = EqualizerConfiguration::<2, 10>::spec_uniform(row);
            assert forall|band: int| 0 <= band < 10 implies equalizer.spec_gain(0, band) as i16
                == gains@[band] by {
                EqualizerConfiguration::<2, 10>::lemma_uniform_gain(row, 0, band);
            }
            assert(Seq::new(10, |band: int| equalizer.spec_gain(0, band) as i16) =~= gains@);
        }
    }
}

/// Whether the setting is one of the sound modes.
pub open spec fn is_sound_mode(id: SettingId) -> bool {
    ||| id == SettingId::AmbientSoundMode
    ||| id == SettingId::TransparencyMode
    ||| id == SettingId::NoiseCancelingMode
    ||| id == SettingId::ManualNoiseCanceling
    ||| id == SettingId::MultiSceneNoiseCanceling
    ||| id == SettingId::WindNoiseSuppression
    ||| id == SettingId::AdaptiveNoiseCancelingSensitivityLevel
}

/// Whether the setting is one of the button presses.
pub open spec fn is_button_press(id: SettingId) -> bool {
    ||| id == SettingId::LeftSinglePress
    ||| id == SettingId::LeftDoublePress
    ||| id == SettingId::LeftLongPress
    ||| id == SettingId::RightSinglePress
    ||| id == SettingId::RightDoublePress
    ||| id == SettingId::RightLongPress
}

/// [`lemma_request_agrees_with_domain`] for the sound modes.
proof fn lemma_sound_mode_agrees(state: A3959State, id: SettingId, value: Value)
    requires
        is_sound_mode(id),
    ensures
        match state.spec_setting(id) {
            None => state.spec_request(id, value) == Err::<A3959Request, SettingError>(
                SettingError::Unsupported,
            ),
            Some(setting) => if setting is Information {
                state.spec_request(id, value) == Err::<A3959Request, SettingError>(
                    SettingError::ReadOnly,
                )
            } else {
                match setting.spec_check(value) {
                    Ok(_) => state.spec_request(id, value) is Ok,
                    Err(e) => state.spec_request(id, value) == Err::<A3959Request, SettingError>(e),
                }
            },
        },
{
    let modes = state.sound_modes;
    match id {
        SettingId::AmbientSoundMode => lemma_select_agrees(modes.ambient_sound_mode, value),
        SettingId::TransparencyMode => lemma_select_agrees(modes.transparency_mode, value),
        SettingId::NoiseCancelingMode => lemma_select_agrees(modes.noise_canceling_mode, value),
        SettingId::ManualNoiseCanceling => lemma_select_agrees(modes.manual_noise_canceling, value),
        SettingId::MultiSceneNoiseCanceling => lemma_select_agrees(
            modes.multi_scene_noise_canceling,
            value,
        ),
        SettingId::WindNoiseSuppression => lemma_toggle_agrees(modes.wind_noise_suppression, value),
        _ => lemma_level_agrees(modes.adaptive_sensitivity_level, value),
    }
}

/// [`lemma_request_agrees_with_domain`] for the button presses.
proof fn lemma_button_press_agrees(state: A3959State, id: SettingId, value: Value)
    requires
        is_button_press(id),
    ensures
        match state.spec_setting(id) {
            None => state.spec_request(id, value) == Err::<A3959Request, SettingError>(
                SettingError::Unsupported,
            ),
            Some(setting) => if setting is Information {
                state.spec_request(id, value) == Err::<A3959Request, SettingError>(
                    SettingError::ReadOnly,
                )
            } else {
                match setting.spec_check(value) {
                    Ok(_) => state.spec_request(id, value) is Ok,
                    Err(e) => state.spec_request(id, value) == Err::<A3959Request, SettingError>(e),
                }
            },
        },
{
    let buttons = state.button_configuration;
    match id {
        SettingId::LeftSinglePress => lemma_slot_agrees(buttons.left_single_press, value),
        SettingId::LeftDoublePress => lemma_slot_agrees(buttons.left_double_press, value),
        SettingId::LeftLongPress => lemma_slot_agrees(buttons.left_long_press, value),
        SettingId::RightSinglePress => lemma_slot_agrees(buttons.right_single_press, value),
        SettingId::RightDoublePress => lemma_slot_agrees(buttons.right_double_press, value),
        _ => lemma_slot_agrees(buttons.right_long_press, value),
    }
}

/// [`lemma_request_agrees_with_domain`] for every other setting.
proof fn lemma_other_setting_agrees(state: A3959State, id: SettingId, value: Value)
    requires
        !is_sound_mode(id),
        !is_button_press(id),
    ensures
        match state.spec_setting(id) {
            None => state.spec_request(id, value) == Err::<A3959Request, SettingError>(
                SettingError::Unsupported,
            ),
            Some(setting) => if setting is Information {
                state.spec_request(id, value) == Err::<A3959Request, SettingError>(
                    SettingError::ReadOnly,
                )
            } else {
                match setting.spec_check(value) {
                    Ok(_) => state.spec_request(id, value) is Ok,
                    Err(e) => state.spec_request(id, value) == Err::<A3959Request, SettingError>(e),
                }
            },
        },
{
    let cycle = state.ambient_sound_mode_cycle;
    match id {
        SettingId::VolumeAdjustments => lemma_equalizer_agrees(state.spec_gains(), value),
        SettingId::NormalModeInCycle => lemma_toggle_agrees(cycle.normal_mode, value),
        SettingId::TransparencyModeInCycle => lemma_toggle_agrees(cycle.transparency_mode, value),
        SettingId::NoiseCancelingModeInCycle => lemma_toggle_agrees(
            cycle.noise_canceling_mode,
            value,
        ),
        SettingId::TouchTone => lemma_toggle_agrees(state.touch_tone, value),
        SettingId::LowBatteryPrompt => lemma_toggle_agrees(state.low_battery_prompt, value),
        SettingId::GamingMode => lemma_toggle_agrees(state.gaming_mode, value),
        _ => {},
    }
}

/// The name of a variant is among the names of all variants.
pub proof fn lemma_own_name_is_an_option<T: NamedVariants>(v: T)
    ensures
        names_of(T::spec_variants()).contains(v.spec_name()),
{
    lemma_from_name::<T>(v.spec_name(), v);
    lemma_named_option::<T>(v.spec_name());
}

/// [`lemma_projection_is_sound`] for the sound modes.
proof fn lemma_sound_mode_is_sound(state: A3959State, id: SettingId, value: Value)
    requires
        state.wf(),
        is_sound_mode(id),
        state.spec_setting(id) matches Some(setting) && setting.holds(value),
    ensures
        state.spec_setting(id)->0.spec_check(value) is Ok,
{
    let modes = state.sound_modes;
    lemma_own_name_is_an_option(modes.ambient_sound_mode);
    lemma_own_name_is_an_option(modes.transparency_mode);
    lemma_own_name_is_an_option(modes.noise_canceling_mode);
    lemma_own_name_is_an_option(modes.manual_noise_canceling);
    lemma_own_name_is_an_option(modes.multi_scene_noise_canceling);
}

/// [`lemma_projection_is_sound`] for the button presses.
proof fn lemma_button_press_is_sound(state: A3959State, id: SettingId, value: Value)
    requires
        is_button_press(id),
        state.spec_setting(id) matches Some(setting) && setting.holds(value),
    ensures
        state.spec_setting(id)->0.spec_check(value) is Ok,
{
    let buttons = state.button_configuration;
    lemma_own_name_is_an_option(buttons.left_single_press.action);
    lemma_own_name_is_an_option(buttons.left_double_press.action);
    lemma_own_name_is_an_option(buttons.left_long_press.action);
    lemma_own_name_is_an_option(buttons.right_single_press.action);
    lemma_own_name_is_an_option(buttons.right_double_press.action);
    lemma_own_name_is_an_option(buttons.right_long_press.action);
}

/// [`lemma_projection_is_sound`] for every other setting.
proof fn lemma_other_setting_is_sound(state: A3959State, id: SettingId, value: Value)
    requires
        !is_sound_mode(id),
        !is_button_press(id),
        state.spec_setting(id) matches Some(setting) && setting.holds(value),
    ensures
        state.spec_setting(id)->0.spec_check(value) is Ok,
{
    if id == SettingId::VolumeAdjustments {
        assert(spec_band_hz().len() == 10);
    }
}

/// Whatever value a setting of the model holds is of the setting's kind and
/// lies in the domain that the setting declares: a select holds one of its
/// options, an optional select one of its options or nothing, a range one
/// of its numbers, the equalizer one gain within bounds for each band.
pub proof fn lemma_projection_is_sound(state: A3959State, id: SettingId, value: Value)
    requires
        state.wf(),
        state.spec_setting(id) matches Some(setting) && setting.holds(value),
    ensures
        state.spec_setting(id)->0.kind_matches(value),
        state.spec_setting(id)->0.admits(value),
{
    if is_sound_mode(id) {
        lemma_sound_mode_is_sound(state, id, value);
    } else if is_button_press(id) {
        lemma_button_press_is_sound(state, id, value);
    } else {
        lemma_other_setting_is_sound(state, id, value);
    }
}

/// A request is made for exactly the values that the setting admits: the
/// model must have the setting, the setting must be more than a display,
/// and the value must pass the check against the setting's declared domain.
/// Where there is no request, the reason is the one that the check gives.
pub proof fn lemma_request_agrees_with_domain(state: A3959State, id: SettingId, value: Value)
    ensures
        match state.spec_setting(id) {
            None => state.spec_request(id, value) == Err::<A3959Request, SettingError>(
                SettingError::Unsupported,
            ),
            Some(setting) => if setting is Information {
                state.spec_request(id, value) == Err::<A3959Request, SettingError>(
                    SettingError::ReadOnly,
                )
            } else {
                match setting.spec_check(value) {
                    Ok(_) => state.spec_request(id, value) is Ok,
                    Err(e) => state.spec_request(id, value) == Err::<A3959Request, SettingError>(e),
                }
            },
        },
{
    if is_sound_mode(id) {
        lemma_sound_mode_agrees(state, id, value);
    } else if is_button_press(id) {
        lemma_button_press_agrees(state, id, value);
    } else {
        lemma_other_setting_agrees(state, id, value);
    }
}

/// [`lemma_request_sets_the_value`] for the sound modes.
proof fn lemma_sound_mode_is_set(state: A3959State, id: SettingId, value: Value)
    requires
        state.wf(),
        is_sound_mode(id),
        state.spec_request(id, value) is Ok,
    ensures
        state.spec_request(id, value)->Ok_0.wf(),
        state.spec_request(id, value)->Ok_0.spec_target(state).wf(),
        state.spec_request(id, value)->Ok_0.spec_target(state).spec_setting(id) matches Some(
            setting,
        ) && setting.holds(value),
{
    let modes = state.sound_modes;
    match id {
        SettingId::AmbientSoundMode => lemma_select_agrees(modes.ambient_sound_mode, value),
        SettingId::TransparencyMode => lemma_select_agrees(modes.transparency_mode, value),
        SettingId::NoiseCancelingMode => lemma_select_agrees(modes.noise_canceling_mode, value),
        SettingId::ManualNoiseCanceling => lemma_select_agrees(modes.manual_noise_canceling, value),
        SettingId::MultiSceneNoiseCanceling => lemma_select_agrees(
            modes.multi_scene_noise_canceling,
            value,
        ),
        SettingId::WindNoiseSuppression => lemma_toggle_agrees(modes.wind_noise_suppression, value),
        _ => lemma_level_agrees(modes.adaptive_sensitivity_level, value),
    }
}

/// [`lemma_request_sets_the_value`] for the button presses.
proof fn lemma_button_press_is_set(state: A3959State, id: SettingId, value: Value)
    requires
        state.wf(),
        is_button_press(id),
        state.spec_request(id, value) is Ok,
    ensures
        state.spec_request(id, value)->Ok_0.wf(),
        state.spec_request(id, value)->Ok_0.spec_target(state).wf(),
        state.spec_request(id, value)->Ok_0.spec_target(state).spec_setting(id) matches Some(
            setting,
        ) && setting.holds(value),
{
    let buttons = state.button_configuration;
    match id {
        SettingId::LeftSinglePress => lemma_slot_agrees(buttons.left_single_press, value),
        SettingId::LeftDoublePress => lemma_slot_agrees(buttons.left_double_press, value),
        SettingId::LeftLongPress => lemma_slot_agrees(buttons.left_long_press, value),
        SettingId::RightSinglePress => lemma_slot_agrees(buttons.right_single_press, value),
        SettingId::RightDoublePress => lemma_slot_agrees(buttons.right_double_press, value),
        _ => lemma_slot_agrees(buttons.right_long_press, value),
    }
}

/// [`lemma_request_sets_the_value`] for every other setting.
proof fn lemma_other_setting_is_set(state: A3959State, id: SettingId, value: Value)
    requires
        state.wf(),
        !is_sound_mode(id),
        !is_button_press(id),
        state.spec_request(id, value) is Ok,
    ensures
        state.spec_request(id, value)->Ok_0.wf(),
        state.spec_request(id, value)->Ok_0.spec_target(state).wf(),
        state.spec_request(id, value)->Ok_0.spec_target(state).spec_setting(id) matches Some(
            setting,
        ) && setting.holds(value),
{
    let cycle = state.ambient_sound_mode_cycle;
    match id {
        SettingId::VolumeAdjustments => lemma_equalizer_agrees(state.spec_gains(), value),
        SettingId::NormalModeInCycle => lemma_toggle_agrees(cycle.normal_mode, value),
        SettingId::TransparencyModeInCycle => lemma_toggle_agrees(cycle.transparency_mode, value),
        SettingId::NoiseCancelingModeInCycle => lemma_toggle_agrees(
            cycle.noise_canceling_mode,
            value,
        ),
        SettingId::TouchTone => lemma_toggle_agrees(state.touch_tone, value),
        SettingId::LowBatteryPrompt => lemma_toggle_agrees(state.low_battery_prompt, value),
        SettingId::GamingMode => lemma_toggle_agrees(state.gaming_mode, value),
        _ => {},
    }
}

/// When the earbuds have done what a request asks, the setting that the
/// request was made for holds the value that was asked for.
pub proof fn lemma_request_sets_the_value(state: A3959State, id: SettingId, value: Value)
    requires
        state.wf(),
        state.spec_request(id, value) is Ok,
    ensures
        state.spec_request(id, value)->Ok_0.wf(),
        state.spec_request(id, value)->Ok_0.spec_target(state).wf(),
        state.spec_request(id, value)->Ok_0.spec_target(state).spec_setting(id) matches Some(
            setting,
        ) && setting.holds(value),
{
    if is_sound_mode(id) {
        lemma_sound_mode_is_set(state, id, value);
    } else if is_button_press(id) {
        lemma_button_press_is_set(state, id, value);
    } else {
        lemma_other_setting_is_set(state, id, value);
    }
}

} // verus!
