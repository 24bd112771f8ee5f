//! What the model shows of its state as settings.

use vstd::prelude::*;

use crate::api::settings::equalizer::Equalizer;
use crate::api::settings::names::NamedVariants;
use crate::api::settings::range::Range;
use crate::api::settings::text::{integer_text, integer_to_string, truth_text, truth_to_string};
use crate::api::settings::{
    information_view, optional_select_view, select_view, Setting, SettingId, SettingView,
};
use crate::devices::soundcore::a3959::state::A3959State;
use crate::devices::soundcore::a3959::structures::{ButtonAction, ButtonSlot};
use crate::devices::soundcore::standard::structures::sound_modes::MAX_SENSITIVITY_LEVEL;

verus! {

/// Centre frequencies of the ten equalizer bands, in hertz.
pub open spec fn spec_band_hz() -> Seq<u16> {
    seq![31u16, 62u16, 125u16, 250u16, 500u16, 1000u16, 2000u16, 4000u16, 8000u16, 16000u16]
}

/// Exec counterpart of [`spec_band_hz`].
pub fn band_hz() -> (r: Vec<u16>)
    ensures
        r@ == spec_band_hz(),
{
    let bands = vec![31u16, 62u16, 125u16, 250u16, 500u16, 1000u16, 2000u16, 4000u16, 8000u16, 16000u16];
    assert(bands@ =~= spec_band_hz());
    bands
}

/// The action that a button slot has selected: none while it is disabled.
pub open spec fn selected_action(slot: ButtonSlot) -> Option<ButtonAction> {
    if slot.is_enabled {
        Some(slot.action)
    } else {
        None
    }
}

impl A3959State {
    /// The gains of the first channel, as the equalizer setting lists them.
    pub open spec fn spec_gains(self) -> Seq<i16> {
        Seq::new(10, |band: int| self.equalizer_configuration.spec_gain(0, band) as i16)
    }

    /// The content of the setting that the state holds under `id`, if the
    /// model has that setting.
    pub open spec fn spec_setting(self, id: SettingId) -> Option<SettingView> {
        match id {
            SettingId::AmbientSoundMode => Some(select_view(self.sound_modes.ambient_sound_mode)),
            SettingId::TransparencyMode => Some(select_view(self.sound_modes.transparency_mode)),
            SettingId::NoiseCancelingMode => Some(
                select_view(self.sound_modes.noise_canceling_mode),
            ),
            SettingId::ManualNoiseCanceling => Some(
                select_view(self.sound_modes.manual_noise_canceling),
            ),
            SettingId::AdaptiveNoiseCanceling => Some(
                information_view(self.sound_modes.adaptive_noise_canceling.spec_name()),
            ),
            SettingId::MultiSceneNoiseCanceling => Some(
                select_view(self.sound_modes.multi_scene_noise_canceling),
            ),
            SettingId::WindNoiseSuppression => Some(
                SettingView::Toggle { value: self.sound_modes.wind_noise_suppression },
            ),
            SettingId::AdaptiveNoiseCancelingSensitivityLevel => Some(
                SettingView::I32Range {
                    min: 0,
                    max: MAX_SENSITIVITY_LEVEL as int,
                    step: 1,
                    value: self.sound_modes.adaptive_sensitivity_level.spec_level() as int,
                },
            ),
            SettingId::VolumeAdjustments => Some(
                SettingView::Equalizer {
                    band_hz: spec_band_hz(),
                    fraction_digits: 1,
                    min: -128,
                    max: 127,
                    value: self.spec_gains(),
                },
            ),
            SettingId::LeftSinglePress => Some(
                optional_select_view(selected_action(self.button_configuration.left_single_press)),
            ),
            SettingId::LeftDoublePress => Some(
                optional_select_view(selected_action(self.button_configuration.left_double_press)),
            ),
            SettingId::LeftLongPress => Some(
                optional_select_view(selected_action(self.button_configuration.left_long_press)),
            ),
            SettingId::RightSinglePress => Some(
                optional_select_view(selected_action(self.button_configuration.right_single_press)),
            ),
            SettingId::RightDoublePress => Some(
                optional_select_view(selected_action(self.button_configuration.right_double_press)),
            ),
            SettingId::RightLongPress => Some(
                optional_select_view(selected_action(self.button_configuration.right_long_press)),
            ),
            SettingId::NormalModeInCycle => Some(
                SettingView::Toggle { value: self.ambient_sound_mode_cycle.normal_mode },
            ),
            SettingId::TransparencyModeInCycle => Some(
                SettingView::Toggle { value: self.ambient_sound_mode_cycle.transparency_mode },
            ),
            SettingId::NoiseCancelingModeInCycle => Some(
                SettingView::Toggle { value: self.ambient_sound_mode_cycle.noise_canceling_mode },
            ),
            SettingId::IsChargingLeft => Some(
                information_view(truth_text(self.dual_battery.left.is_charging)),
            ),
            SettingId::IsChargingRight => Some(
                information_view(truth_text(self.dual_battery.right.is_charging)),
            ),
            SettingId::BatteryLevelLeft => Some(
                information_view(integer_text(self.dual_battery.left.level as int)),
            ),
            SettingId::BatteryLevelRight => Some(
                information_view(integer_text(self.dual_battery.right.level as int)),
            ),
            SettingId::SerialNumber => Some(information_view(self.serial_number.spec_text())),
            SettingId::FirmwareVersionLeft => Some(
                information_view(self.dual_firmware_version.left.spec_text()),
            ),
            SettingId::FirmwareVersionRight => Some(
                information_view(self.dual_firmware_version.right.spec_text()),
            ),
            SettingId::TwsStatus => Some(information_view(truth_text(self.tws_status.is_connected))),
            SettingId::HostDevice => Some(information_view(self.tws_status.host_device.spec_name())),
            SettingId::TouchTone => Some(SettingView::Toggle { value: self.touch_tone }),
            SettingId::LowBatteryPrompt => Some(
                SettingView::Toggle { value: self.low_battery_prompt },
            ),
            SettingId::GamingMode => Some(SettingView::Toggle { value: self.gaming_mode }),
            _ => None,
        }
    }

    /// The identifiers of the settings that the model has, in the order of
    /// the identifiers.
    pub open spec fn spec_setting_ids(self) -> Seq<SettingId> {
        SettingId::spec_variants().filter(|id: SettingId| self.spec_setting(id) is Some)
    }

    /// Exec counterpart of [`A3959State::spec_gains`].
    pub fn gains(&self) -> (r: Vec<i16>)
        ensures
            r@ == self.spec_gains(),
    {
        broadcast use vstd::array::group_array_axioms;

        let mut gains: Vec<i16> = Vec::new();
        let mut band: usize = 0;
        while band < 10
            invariant
                band <= 10,
                gains@.len() == band,
                forall|b: int|
                    0 <= b < band ==> gains@[b] == self.equalizer_configuration.spec_gain(0, b)
                        as i16,
            decreases 10 - band,
        {
            let gain: i8 = self.equalizer_configuration.volume_adjustments[0][band];
            gains.push(gain as i16);
            band = band + 1;
        }
        assert(gains@ =~= self.spec_gains());
        gains
    }

    /// The setting that the state holds under `id`, if the model has that
    /// setting. Whatever is handed out is well formed: its value lies in the
    /// domain that it declares.
    pub fn setting(&self, id: SettingId) -> (r: Option<Setting>)
        ensures
            r matches Some(setting) ==> setting.wf() && Some(setting@) == self.spec_setting(id),
            r is None ==> self.spec_setting(id) is None,
    {
        match id {
            SettingId::AmbientSoundMode => Some(
                Setting::select_from_enum_all_variants(self.sound_modes.ambient_sound_mode),
            ),
            SettingId::TransparencyMode => Some(
                Setting::select_from_enum_all_variants(self.sound_modes.transparency_mode),
            ),
            SettingId::NoiseCancelingMode => Some(
                Setting::select_from_enum_all_variants(self.sound_modes.noise_canceling_mode),
            ),
            SettingId::ManualNoiseCanceling => Some(
                Setting::select_from_enum_all_variants(self.sound_modes.manual_noise_canceling),
            ),
            SettingId::AdaptiveNoiseCanceling => Some(
                Setting::information(self.sound_modes.adaptive_noise_canceling.name().to_owned()),
            ),
            SettingId::MultiSceneNoiseCanceling => Some(
                Setting::select_from_enum_all_variants(self.sound_modes.multi_scene_noise_canceling),
            ),
            SettingId::WindNoiseSuppression => Some(
                Setting::toggle(self.sound_modes.wind_noise_suppression),
            ),
            SettingId::AdaptiveNoiseCancelingSensitivityLevel => Some(
                Setting::I32Range {
                    setting: Range { min: 0, max: MAX_SENSITIVITY_LEVEL as i32, step: 1 },
                    value: self.sound_modes.adaptive_sensitivity_level.level() as i32,
                },
            ),
            SettingId::VolumeAdjustments => Some(
                Setting::Equalizer {
                    setting: Equalizer {
                        band_hz: band_hz(),
                        fraction_digits: 1,
                        min: -128,
                        max: 127,
                    },
                    value: self.gains(),
                },
            ),
            SettingId::LeftSinglePress => Some(
                button_setting(&self.button_configuration.left_single_press),
            ),
            SettingId::LeftDoublePress => Some(
                button_setting(&self.button_configuration.left_double_press),
            ),
            SettingId::LeftLongPress => Some(
                button_setting(&self.button_configuration.left_long_press),
            ),
            SettingId::RightSinglePress => Some(
                button_setting(&self.button_configuration.right_single_press),
            ),
            SettingId::RightDoublePress => Some(
                button_setting(&self.button_configuration.right_double_press),
            ),
            SettingId::RightLongPress => Some(
                button_setting(&self.button_configuration.right_long_press),
            ),
            SettingId::NormalModeInCycle => Some(
                Setting::toggle(self.ambient_sound_mode_cycle.normal_mode),
            ),
            SettingId::TransparencyModeInCycle => Some(
                Setting::toggle(self.ambient_sound_mode_cycle.transparency_mode),
            ),
            SettingId::NoiseCancelingModeInCycle => Some(
                Setting::toggle(self.ambient_sound_mode_cycle.noise_canceling_mode),
            ),
            SettingId::IsChargingLeft => Some(
                Setting::information(truth_to_string(self.dual_battery.left.is_charging)),
            ),
            SettingId::IsChargingRight => Some(
                Setting::information(truth_to_string(self.dual_battery.right.is_charging)),
            ),
            SettingId::BatteryLevelLeft => Some(
                Setting::information(integer_to_string(self.dual_battery.left.level as i32)),
            ),
            SettingId::BatteryLevelRight => Some(
                Setting::information(integer_to_string(self.dual_battery.right.level as i32)),
            ),
            SettingId::SerialNumber => Some(Setting::information(self.serial_number.to_string())),
            SettingId::FirmwareVersionLeft => Some(
                Setting::information(self.dual_firmware_version.left.to_string()),
            ),
            SettingId::FirmwareVersionRight => Some(
                Setting::information(self.dual_firmware_version.right.to_string()),
            ),
            SettingId::TwsStatus => Some(
                Setting::information(truth_to_string(self.tws_status.is_connected)),
            ),
            SettingId::HostDevice => Some(
                Setting::information(self.tws_status.host_device.name().to_owned()),
            ),
            SettingId::TouchTone => Some(Setting::toggle(self.touch_tone)),
            SettingId::LowBatteryPrompt => Some(Setting::toggle(self.low_battery_prompt)),
            SettingId::GamingMode => Some(Setting::toggle(self.gaming_mode)),
            _ => None,
        }
    }

    /// Every setting that the model has, with its identifier, in the order
    /// of the identifiers.
    pub fn current_settings(&self) -> (r: Vec<(SettingId, Setting)>)
        ensures
            r@.len() == self.spec_setting_ids().len(),
            forall|i: int|
                0 <= i < r@.len() ==> {
                    &&& (#[trigger] r@[i]).0 == self.spec_setting_ids()[i]
                    &&& r@[i].1.wf()
                    &&& self.spec_setting(r@[i].0) == Some(r@[i].1@)
                },
    {
        let ids = SettingId::variants();
        let ghost has = |id: SettingId| self.spec_setting(id) is Some;
        let mut settings: Vec<(SettingId, Setting)> = Vec::new();
        let mut next: usize = 0;
        proof {
            reveal(Seq::filter);
            assert(ids@.take(0) =~= Seq::<SettingId>::empty());
        }
        while next < ids.len()
            invariant
                next <= ids@.len(),
                ids@ == SettingId::spec_variants(),
                has == |id: SettingId| self.spec_setting(id) is Some,
                settings@.len() == ids@.take(next as int).filter(has).len(),
                forall|i: int|
                    0 <= i < settings@.len() ==> {
                        &&& (#[trigger] settings@[i]).0 == ids@.take(next as int).filter(has)[i]
                        &&& settings@[i].1.wf()
                        &&& self.spec_setting(settings@[i].0) == Some(settings@[i].1@)
                    },
            decreases ids@.len() - next,
        {
            let id = ids[next];
            proof {
                reveal(Seq::filter);
                let wider = ids@.take(next + 1);
                assert(wider.drop_last() =~= ids@.take(next as int));
                assert(wider.last() == id);
            }
            match self.setting(id) {
                Some(setting) => {
                    settings.push((id, setting));
                },
                None => {},
            }
            next = next + 1;
        }
        assert(ids@.take(next as int) =~= ids@);
        settings
    }
}

/// The setting of one button press: an optional select over the actions.
fn button_setting(slot: &ButtonSlot) -> (r: Setting)
    ensures
        r.wf(),
        r@ == optional_select_view(selected_action(*slot)),
{
    let selected = if slot.is_enabled {
        Some(slot.action)
    } else {
        None
    };
    Setting::optional_select_from_enum_all_variants(selected)
}

} // verus!
