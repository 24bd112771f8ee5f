//! The generic setting model that front-ends see.

use vstd::prelude::*;

use self::equalizer::Equalizer;
use self::names::NamedVariants;
use self::range::Range;
use self::select::{names_of, Select};
use self::value::Value;

pub mod equalizer;
pub mod names;
pub mod range;
pub mod select;
pub mod text;
pub mod value;

verus! {

/// The group that a setting is shown under.
#[derive(Clone, Copy, Debug, PartialEq, Eq, PartialOrd, Ord, Hash, Structural)]
pub enum CategoryId {
    General,
    SoundModes,
    Equalizer,
    ButtonConfiguration,
    DeviceInformation,
}

impl NamedVariants for CategoryId {
    open spec fn spec_name(self) -> Seq<char> {
        match self {
            CategoryId::General => "general"@,
            CategoryId::SoundModes => "soundModes"@,
            CategoryId::Equalizer => "equalizer"@,
            CategoryId::ButtonConfiguration => "buttonConfiguration"@,
            CategoryId::DeviceInformation => "deviceInformation"@,
        }
    }

    open spec fn spec_variants() -> Seq<Self> {
        seq![
            CategoryId::General,
            CategoryId::SoundModes,
            CategoryId::Equalizer,
            CategoryId::ButtonConfiguration,
            CategoryId::DeviceInformation,
        ]
    }

    proof fn lemma_names_identify(a: Self, b: Self) {
        reveal_strlit("general");
        reveal_strlit("soundModes");
        reveal_strlit("equalizer");
        reveal_strlit("buttonConfiguration");
        reveal_strlit("deviceInformation");
        if a.spec_name() == b.spec_name() {
            let x = a.spec_name();
            let y = b.spec_name();
            assert(x.len() == y.len());
        }
    }

    proof fn lemma_variants_complete(v: Self) {
        let all = Self::spec_variants();
        match v {
            CategoryId::General => assert(all[0] == v),
            CategoryId::SoundModes => assert(all[1] == v),
            CategoryId::Equalizer => assert(all[2] == v),
            CategoryId::ButtonConfiguration => assert(all[3] == v),
            CategoryId::DeviceInformation => assert(all[4] == v),
        }
    }

    fn name(self) -> (r: &'static str) {
        match self {
            CategoryId::General => "general",
            CategoryId::SoundModes => "soundModes",
            CategoryId::Equalizer => "equalizer",
            CategoryId::ButtonConfiguration => "buttonConfiguration",
            CategoryId::DeviceInformation => "deviceInformation",
        }
    }

    fn variants() -> (r: Vec<Self>) {
        let all = vec![
            CategoryId::General,
            CategoryId::SoundModes,
            CategoryId::Equalizer,
            CategoryId::ButtonConfiguration,
            CategoryId::DeviceInformation,
        ];
        assert(all@ =~= Self::spec_variants());
        all
    }
}

/// The logical name of a setting.
///
/// The names are stored in presets, so this enumeration only ever grows at
/// its end: no variant is renamed or removed, and no name is given twice.
#[derive(Clone, Copy, Debug, PartialEq, Eq, PartialOrd, Ord, Hash, Structural)]
pub enum SettingId {
    AmbientSoundMode,
    TransparencyMode,
    NoiseCancelingMode,
    CustomNoiseCanceling,
    PresetEqualizerProfile,
    CustomEqualizerProfile,
    VolumeAdjustments,
    LeftSinglePress,
    LeftDoublePress,
    LeftLongPress,
    RightSinglePress,
    RightDoublePress,
    RightLongPress,
    NormalModeInCycle,
    TransparencyModeInCycle,
    NoiseCancelingModeInCycle,
    AdaptiveNoiseCanceling,
    ManualNoiseCanceling,
    WindNoiseSuppression,
    AdaptiveNoiseCancelingSensitivityLevel,
    IsCharging,
    BatteryLevel,
    IsChargingLeft,
    BatteryLevelLeft,
    IsChargingRight,
    BatteryLevelRight,
    SerialNumber,
    FirmwareVersion,
    FirmwareVersionLeft,
    FirmwareVersionRight,
    TwsStatus,
    HostDevice,
    StateUpdatePacket,
    MultiSceneNoiseCanceling,
    TouchTone,
    LowBatteryPrompt,
    GamingMode,
}

impl NamedVariants for SettingId {
    open spec fn spec_name(self) -> Seq<char> {
        match self {
            SettingId::AmbientSoundMode => "ambientSoundMode"@,
            SettingId::TransparencyMode => "transparencyMode"@,
            SettingId::NoiseCancelingMode => "noiseCancelingMode"@,
            SettingId::CustomNoiseCanceling => "customNoiseCanceling"@,
            SettingId::PresetEqualizerProfile => "presetEqualizerProfile"@,
            SettingId::CustomEqualizerProfile => "customEqualizerProfile"@,
            SettingId::VolumeAdjustments => "volumeAdjustments"@,
            SettingId::LeftSinglePress => "leftSinglePress"@,
            SettingId::LeftDoublePress => "leftDoublePress"@,
            SettingId::LeftLongPress => "leftLongPress"@,
            SettingId::RightSinglePress => "rightSinglePress"@,
            SettingId::RightDoublePress => "rightDoublePress"@,
            SettingId::RightLongPress => "rightLongPress"@,
            SettingId::NormalModeInCycle => "normalModeInCycle"@,
            SettingId::TransparencyModeInCycle => "transparencyModeInCycle"@,
            SettingId::NoiseCancelingModeInCycle => "noiseCancelingModeInCycle"@,
            SettingId::AdaptiveNoiseCanceling => "adaptiveNoiseCanceling"@,
            SettingId::ManualNoiseCanceling => "manualNoiseCanceling"@,
            SettingId::WindNoiseSuppression => "windNoiseSuppression"@,
            SettingId::AdaptiveNoiseCancelingSensitivityLevel => "adaptiveNoiseCancelingSensitivityLevel"@,
            SettingId::IsCharging => "isCharging"@,
            SettingId::BatteryLevel => "batteryLevel"@,
            SettingId::IsChargingLeft => "isChargingLeft"@,
            SettingId::BatteryLevelLeft => "batteryLevelLeft"@,
            SettingId::IsChargingRight => "isChargingRight"@,
            SettingId::BatteryLevelRight => "batteryLevelRight"@,
            SettingId::SerialNumber => "serialNumber"@,
            SettingId::FirmwareVersion => "firmwareVersion"@,
            SettingId::FirmwareVersionLeft => "firmwareVersionLeft"@,
            SettingId::FirmwareVersionRight => "firmwareVersionRight"@,
            SettingId::TwsStatus => "twsStatus"@,
            SettingId::HostDevice => "hostDevice"@,
            SettingId::StateUpdatePacket => "stateUpdatePacket"@,
            SettingId::MultiSceneNoiseCanceling => "multiSceneNoiseCanceling"@,
            SettingId::TouchTone => "touchTone"@,
            SettingId::LowBatteryPrompt => "lowBatteryPrompt"@,
            SettingId::GamingMode => "gamingMode"@,
        }
    }

    open spec fn spec_variants() -> Seq<Self> {
        seq![
            SettingId::AmbientSoundMode,
            SettingId::TransparencyMode,
            SettingId::NoiseCancelingMode,
            SettingId::CustomNoiseCanceling,
            SettingId::PresetEqualizerProfile,
            SettingId::CustomEqualizerProfile,
            SettingId::VolumeAdjustments,
            SettingId::LeftSinglePress,
            SettingId::LeftDoublePress,
            SettingId::LeftLongPress,
            SettingId::RightSinglePress,
            SettingId::RightDoublePress,
            SettingId::RightLongPress,
            SettingId::NormalModeInCycle,
            SettingId::TransparencyModeInCycle,
            SettingId::NoiseCancelingModeInCycle,
            SettingId::AdaptiveNoiseCanceling,
            SettingId::ManualNoiseCanceling,
            SettingId::WindNoiseSuppression,
            SettingId::AdaptiveNoiseCancelingSensitivityLevel,
            SettingId::IsCharging,
            SettingId::BatteryLevel,
            SettingId::IsChargingLeft,
            SettingId::BatteryLevelLeft,
            SettingId::IsChargingRight,
            SettingId::BatteryLevelRight,
            SettingId::SerialNumber,
            SettingId::FirmwareVersion,
            SettingId::FirmwareVersionLeft,
            SettingId::FirmwareVersionRight,
            SettingId::TwsStatus,
            SettingId::HostDevice,
            SettingId::StateUpdatePacket,
            SettingId::MultiSceneNoiseCanceling,
            SettingId::TouchTone,
            SettingId::LowBatteryPrompt,
            SettingId::GamingMode,
        ]
    }

    proof fn lemma_names_identify(a: Self, b: Self) {
        reveal_strlit("ambientSoundMode");
        reveal_strlit("transparencyMode");
        reveal_strlit("noiseCancelingMode");
        reveal_strlit("customNoiseCanceling");
        reveal_strlit("presetEqualizerProfile");
        reveal_strlit("customEqualizerProfile");
        reveal_strlit("volumeAdjustments");
        reveal_strlit("leftSinglePress");
        reveal_strlit("leftDoublePress");
        reveal_strlit("leftLongPress");
        reveal_strlit("rightSinglePress");
        reveal_strlit("rightDoublePress");
        reveal_strlit("rightLongPress");
        reveal_strlit("normalModeInCycle");
        reveal_strlit("transparencyModeInCycle");
        reveal_strlit("noiseCancelingModeInCycle");
        reveal_strlit("adaptiveNoiseCanceling");
        reveal_strlit("manualNoiseCanceling");
        reveal_strlit("windNoiseSuppression");
        reveal_strlit("adaptiveNoiseCancelingSensitivityLevel");
        reveal_strlit("isCharging");
        reveal_strlit("batteryLevel");
        reveal_strlit("isChargingLeft");
        reveal_strlit("batteryLevelLeft");
        reveal_strlit("isChargingRight");
        reveal_strlit("batteryLevelRight");
        reveal_strlit("serialNumber");
        reveal_strlit("firmwareVersion");
        reveal_strlit("firmwareVersionLeft");
        reveal_strlit("firmwareVersionRight");
        reveal_strlit("twsStatus");
        reveal_strlit("hostDevice");
        reveal_strlit("stateUpdatePacket");
        reveal_strlit("multiSceneNoiseCanceling");
        reveal_strlit("touchTone");
        reveal_strlit("lowBatteryPrompt");
        reveal_strlit("gamingMode");
        if a.spec_name() == b.spec_name() {
            let x = a.spec_name();
            let y = b.spec_name();
            assert(x.len() == y.len());
            assert(x[5] == y[5]);
        }
    }

    proof fn lemma_variants_complete(v: Self) {
        let all = Self::spec_variants();
        match v {
            SettingId::AmbientSoundMode => assert(all[0] == v),
            SettingId::TransparencyMode => assert(all[1] == v),
            SettingId::NoiseCancelingMode => assert(all[2] == v),
            SettingId::CustomNoiseCanceling => assert(all[3] == v),
            SettingId::PresetEqualizerProfile => assert(all[4] == v),
            SettingId::CustomEqualizerProfile => assert(all[5] == v),
            SettingId::VolumeAdjustments => assert(all[6] == v),
            SettingId::LeftSinglePress => assert(all[7] == v),
            SettingId::LeftDoublePress => assert(all[8] == v),
            SettingId::LeftLongPress => assert(all[9] == v),
            SettingId::RightSinglePress => assert(all[10] == v),
            SettingId::RightDoublePress => assert(all[11] == v),
            SettingId::RightLongPress => assert(all[12] == v),
            SettingId::NormalModeInCycle => assert(all[13] == v),
            SettingId::TransparencyModeInCycle => assert(all[14] == v),
            SettingId::NoiseCancelingModeInCycle => assert(all[15] == v),
            SettingId::AdaptiveNoiseCanceling => assert(all[16] == v),
            SettingId::ManualNoiseCanceling => assert(all[17] == v),
            SettingId::WindNoiseSuppression => assert(all[18] == v),
            SettingId::AdaptiveNoiseCancelingSensitivityLevel => assert(all[19] == v),
            SettingId::IsCharging => assert(all[20] == v),
            SettingId::BatteryLevel => assert(all[21] == v),
            SettingId::IsChargingLeft => assert(all[22] == v),
            SettingId::BatteryLevelLeft => assert(all[23] == v),
            SettingId::IsChargingRight => assert(all[24] == v),
            SettingId::BatteryLevelRight => assert(all[25] == v),
            SettingId::SerialNumber => assert(all[26] == v),
            SettingId::FirmwareVersion => assert(all[27] == v),
            SettingId::FirmwareVersionLeft => assert(all[28] == v),
            SettingId::FirmwareVersionRight => assert(all[29] == v),
            SettingId::TwsStatus => assert(all[30] == v),
            SettingId::HostDevice => assert(all[31] == v),
            SettingId::StateUpdatePacket => assert(all[32] == v),
            SettingId::MultiSceneNoiseCanceling => assert(all[33] == v),
            SettingId::TouchTone => assert(all[34] == v),
            SettingId::LowBatteryPrompt => assert(all[35] == v),
            SettingId::GamingMode => assert(all[36] == v),
        }
    }

    fn name(self) -> (r: &'static str) {
        match self {
            SettingId::AmbientSoundMode => "ambientSoundMode",
            SettingId::TransparencyMode => "transparencyMode",
            SettingId::NoiseCancelingMode => "noiseCancelingMode",
            SettingId::CustomNoiseCanceling => "customNoiseCanceling",
            SettingId::PresetEqualizerProfile => "presetEqualizerProfile",
            SettingId::CustomEqualizerProfile => "customEqualizerProfile",
            SettingId::VolumeAdjustments => "volumeAdjustments",
            SettingId::LeftSinglePress => "leftSinglePress",
            SettingId::LeftDoublePress => "leftDoublePress",
            SettingId::LeftLongPress => "leftLongPress",
            SettingId::RightSinglePress => "rightSinglePress",
            SettingId::RightDoublePress => "rightDoublePress",
            SettingId::RightLongPress => "rightLongPress",
            SettingId::NormalModeInCycle => "normalModeInCycle",
            SettingId::TransparencyModeInCycle => "transparencyModeInCycle",
            SettingId::NoiseCancelingModeInCycle => "noiseCancelingModeInCycle",
            SettingId::AdaptiveNoiseCanceling => "adaptiveNoiseCanceling",
            SettingId::ManualNoiseCanceling => "manualNoiseCanceling",
            SettingId::WindNoiseSuppression => "windNoiseSuppression",
            SettingId::AdaptiveNoiseCancelingSensitivityLevel => "adaptiveNoiseCancelingSensitivityLevel",
            SettingId::IsCharging => "isCharging",
            SettingId::BatteryLevel => "batteryLevel",
            SettingId::IsChargingLeft => "isChargingLeft",
            SettingId::BatteryLevelLeft => "batteryLevelLeft",
            SettingId::IsChargingRight => "isChargingRight",
            SettingId::BatteryLevelRight => "batteryLevelRight",
            SettingId::SerialNumber => "serialNumber",
            SettingId::FirmwareVersion => "firmwareVersion",
            SettingId::FirmwareVersionLeft => "firmwareVersionLeft",
            SettingId::FirmwareVersionRight => "firmwareVersionRight",
            SettingId::TwsStatus => "twsStatus",
            SettingId::HostDevice => "hostDevice",
            SettingId::StateUpdatePacket => "stateUpdatePacket",
            SettingId::MultiSceneNoiseCanceling => "multiSceneNoiseCanceling",
            SettingId::TouchTone => "touchTone",
            SettingId::LowBatteryPrompt => "lowBatteryPrompt",
            SettingId::GamingMode => "gamingMode",
        }
    }

    fn variants() -> (r: Vec<Self>) {
        let all = vec![
            SettingId::AmbientSoundMode,
            SettingId::TransparencyMode,
            SettingId::NoiseCancelingMode,
            SettingId::CustomNoiseCanceling,
            SettingId::PresetEqualizerProfile,
            SettingId::CustomEqualizerProfile,
            SettingId::VolumeAdjustments,
            SettingId::LeftSinglePress,
            SettingId::LeftDoublePress,
            SettingId::LeftLongPress,
            SettingId::RightSinglePress,
            SettingId::RightDoublePress,
            SettingId::RightLongPress,
            SettingId::NormalModeInCycle,
            SettingId::TransparencyModeInCycle,
            SettingId::NoiseCancelingModeInCycle,
            SettingId::AdaptiveNoiseCanceling,
            SettingId::ManualNoiseCanceling,
            SettingId::WindNoiseSuppression,
            SettingId::AdaptiveNoiseCancelingSensitivityLevel,
            SettingId::IsCharging,
            SettingId::BatteryLevel,
            SettingId::IsChargingLeft,
            SettingId::BatteryLevelLeft,
            SettingId::IsChargingRight,
            SettingId::BatteryLevelRight,
            SettingId::SerialNumber,
            SettingId::FirmwareVersion,
            SettingId::FirmwareVersionLeft,
            SettingId::FirmwareVersionRight,
            SettingId::TwsStatus,
            SettingId::HostDevice,
            SettingId::StateUpdatePacket,
            SettingId::MultiSceneNoiseCanceling,
            SettingId::TouchTone,
            SettingId::LowBatteryPrompt,
            SettingId::GamingMode,
        ];
        assert(all@ =~= Self::spec_variants());
        all
    }
}

/// One logical device feature: its kind, its legal domain and its current
/// value.
#[allow(inconsistent_fields)]
#[derive(Clone, Debug, PartialEq, Eq)]
pub enum Setting {
    Toggle { value: bool },
    I32Range { setting: Range<i32>, value: i32 },
    /// One of the options is always selected.
    Select { setting: Select, value: String },
    /// As `Select`, but nothing selected is legal too.
    OptionalSelect { setting: Select, value: Option<String> },
    /// As `OptionalSelect`, and the front-end may add and remove options.
    ModifiableSelect { setting: Select, value: Option<String> },
    Equalizer { setting: Equalizer, value: Vec<i16> },
    /// Read-only text, raw and as shown.
    Information { value: String, translated_value: String },
}

/// The mathematical content of a setting: its texts as sequences of
/// characters and its numbers as integers.
#[allow(inconsistent_fields)]
pub enum SettingView {
    Toggle { value: bool },
    I32Range { min: int, max: int, step: int, value: int },
    Select { options: Seq<Seq<char>>, localized_options: Seq<Seq<char>>, value: Seq<char> },
    OptionalSelect {
        options: Seq<Seq<char>>,
        localized_options: Seq<Seq<char>>,
        value: Option<Seq<char>>,
    },
    ModifiableSelect {
        options: Seq<Seq<char>>,
        localized_options: Seq<Seq<char>>,
        value: Option<Seq<char>>,
    },
    Equalizer { band_hz: Seq<u16>, fraction_digits: int, min: int, max: int, value: Seq<i16> },
    Information { value: Seq<char>, translated_value: Seq<char> },
}

impl SettingView {
    /// Whether a value is of the kind that the setting declares.
    pub open spec fn kind_matches(self, value: Value) -> bool {
        match self {
            SettingView::Toggle { .. } => value is Bool,
            SettingView::I32Range { .. } => value is I32,
            SettingView::Select { .. } => value is String,
            SettingView::OptionalSelect { .. } => value is OptionalString,
            SettingView::ModifiableSelect { .. } => value is OptionalString,
            SettingView::Equalizer { .. } => value is I16Vec,
            SettingView::Information { .. } => value is String,
        }
    }

    /// Whether a value lies in the domain that the setting declares: of its
    /// kind, and one of the values of its range, one of its options or
    /// nothing where nothing is legal, or one gain per band within bounds.
    pub open spec fn admits(self, value: Value) -> bool {
        match (self, value) {
            (SettingView::Toggle { .. }, Value::Bool(_)) => true,
            (SettingView::I32Range { min, max, step, .. }, Value::I32(number)) => {
                &&& step >= 1
                &&& min <= number <= max
                &&& (number - min) % step == 0
            },
            (SettingView::Select { options, .. }, Value::String(text)) => options.contains(text@),
            (SettingView::OptionalSelect { options, .. }, Value::OptionalString(selection)) => selection
                matches Some(text) ==> options.contains(text@),
            (SettingView::ModifiableSelect { options, .. }, Value::OptionalString(selection)) => selection
                matches Some(text) ==> options.contains(text@),
            (SettingView::Equalizer { band_hz, min, max, .. }, Value::I16Vec(gains)) => {
                &&& gains@.len() == band_hz.len()
                &&& forall|i: int| 0 <= i < gains@.len() ==> min <= #[trigger] gains@[i] <= max
            },
            (SettingView::Information { .. }, Value::String(_)) => true,
            _ => false,
        }
    }

    /// Whether the setting's current value is `value`.
    pub open spec fn holds(self, value: Value) -> bool {
        match (self, value) {
            (SettingView::Toggle { value: held }, Value::Bool(flag)) => held == flag,
            (SettingView::I32Range { value: held, .. }, Value::I32(number)) => held == number,
            (SettingView::Select { value: held, .. }, Value::String(text)) => held == text@,
            (SettingView::OptionalSelect { value: held, .. }, Value::OptionalString(selection)) => held
                == optional_text(selection),
            (SettingView::ModifiableSelect { value: held, .. }, Value::OptionalString(selection)) => held
                == optional_text(selection),
            (SettingView::Equalizer { value: held, .. }, Value::I16Vec(gains)) => held == gains@,
            (SettingView::Information { value: held, .. }, Value::String(text)) => held == text@,
            _ => false,
        }
    }

    /// What checking a requested value against the setting yields.
    pub open spec fn spec_check(self, value: Value) -> Result<(), SettingError> {
        if !self.kind_matches(value) {
            Err(SettingError::WrongKind)
        } else if !self.admits(value) {
            Err(SettingError::OutOfDomain)
        } else {
            Ok(())
        }
    }
}

/// The text of an optional string.
pub open spec fn optional_text(text: Option<String>) -> Option<Seq<char>> {
    match text {
        Some(text) => Some(text@),
        None => None,
    }
}

impl View for Setting {
    type V = SettingView;

    open spec fn view(&self) -> SettingView {
        match *self {
            Setting::Toggle { value } => SettingView::Toggle { value },
            Setting::I32Range { setting, value } => SettingView::I32Range {
                min: setting.min as int,
                max: setting.max as int,
                step: setting.step as int,
                value: value as int,
            },
            Setting::Select { setting, value } => SettingView::Select {
                options: setting.spec_options(),
                localized_options: setting.spec_localized_options(),
                value: value@,
            },
            Setting::OptionalSelect { setting, value } => SettingView::OptionalSelect {
                options: setting.spec_options(),
                localized_options: setting.spec_localized_options(),
                value: optional_text(value),
            },
            Setting::ModifiableSelect { setting, value } => SettingView::ModifiableSelect {
                options: setting.spec_options(),
                localized_options: setting.spec_localized_options(),
                value: optional_text(value),
            },
            Setting::Equalizer { setting, value } => SettingView::Equalizer {
                band_hz: setting.band_hz@,
                fraction_digits: setting.fraction_digits as int,
                min: setting.min as int,
                max: setting.max as int,
                value: value@,
            },
            Setting::Information { value, translated_value } => SettingView::Information {
                value: value@,
                translated_value: translated_value@,
            },
        }
    }
}

/// The content of a select over all variants of an enumeration, each option
/// labelled with its own name.
pub open spec fn select_view<T: NamedVariants>(value: T) -> SettingView {
    SettingView::Select {
        options: names_of(T::spec_variants()),
        localized_options: names_of(T::spec_variants()),
        value: value.spec_name(),
    }
}

/// The content of an optional select over all variants of an enumeration,
/// each option labelled with its own name.
pub open spec fn optional_select_view<T: NamedVariants>(value: Option<T>) -> SettingView {
    SettingView::OptionalSelect {
        options: names_of(T::spec_variants()),
        localized_options: names_of(T::spec_variants()),
        value: match value {
            Some(variant) => Some(variant.spec_name()),
            None => None,
        },
    }
}

/// The content of a read-only text that is shown as it is.
pub open spec fn information_view(text: Seq<char>) -> SettingView {
    SettingView::Information { value: text, translated_value: text }
}

/// Why a value was refused for a setting.
#[derive(Clone, Copy, Debug, PartialEq, Eq, Structural)]
pub enum SettingError {
    /// The device has no such setting.
    Unsupported,
    /// The value is of another kind than the setting.
    WrongKind,
    /// The value is of the right kind but outside the setting's domain.
    OutOfDomain,
    /// The setting only shows something: it cannot be set.
    ReadOnly,
}

impl Setting {
    /// The current value of the setting.
    pub open spec fn spec_value(self) -> Value {
        match self {
            Setting::Toggle { value } => Value::Bool(value),
            Setting::I32Range { value, .. } => Value::I32(value),
            Setting::Select { value, .. } => Value::String(value),
            Setting::OptionalSelect { value, .. } => Value::OptionalString(value),
            Setting::ModifiableSelect { value, .. } => Value::OptionalString(value),
            Setting::Equalizer { value, .. } => Value::I16Vec(value),
            Setting::Information { value, .. } => Value::String(value),
        }
    }

    /// Whether a value is of the kind that the setting declares.
    pub open spec fn kind_matches(self, value: Value) -> bool {
        self@.kind_matches(value)
    }

    /// Whether a value lies in the domain that the setting declares: of its
    /// kind, and within its range, among its options, or of its shape.
    pub open spec fn value_fits(self, value: Value) -> bool {
        self@.admits(value)
    }

    /// The description is sound and the current value lies in its domain.
    pub open spec fn wf(self) -> bool {
        &&& match self {
            Setting::I32Range { setting, .. } => setting.wf(),
            Setting::Select { setting, .. } => setting.wf(),
            Setting::OptionalSelect { setting, .. } => setting.wf(),
            Setting::ModifiableSelect { setting, .. } => setting.wf(),
            Setting::Equalizer { setting, .. } => setting.wf(),
            _ => true,
        }
        &&& self.value_fits(self.spec_value())
    }

    /// Checks a value that a caller wants to set against the setting.
    pub fn check_value(&self, value: &Value) -> (r: Result<(), SettingError>)
        ensures
            r == self@.spec_check(*value),
    {
        let fits = match (self, value) {
            (Setting::Toggle { .. }, Value::Bool(_)) => true,
            (Setting::I32Range { setting, .. }, Value::I32(number)) => setting.contains(*number),
            (Setting::Select { setting, .. }, Value::String(text)) => has_option(
                setting,
                text.as_str(),
            ),
            (Setting::OptionalSelect { setting, .. }, Value::OptionalString(selection)) => {
                match selection {
                    Some(text) => has_option(setting, text.as_str()),
                    None => true,
                }
            },
            (Setting::ModifiableSelect { setting, .. }, Value::OptionalString(selection)) => {
                match selection {
                    Some(text) => has_option(setting, text.as_str()),
                    None => true,
                }
            },
            (Setting::Equalizer { setting, .. }, Value::I16Vec(gains)) => setting.fits(gains),
            (Setting::Information { .. }, Value::String(_)) => true,
            _ => return Err(SettingError::WrongKind),
        };
        if fits {
            Ok(())
        } else {
            Err(SettingError::OutOfDomain)
        }
    }

    /// A select over all variants of an enumeration, with `value` selected.
    pub fn select_from_enum_all_variants<T: NamedVariants>(value: T) -> (r: Setting)
        ensures
            r.wf(),
            r@ == select_view(value),
    {
        let variants = T::variants();
        let setting = Select::from_enum(variants.as_slice());
        proof {
            T::lemma_variants_complete(value);
            let i = choose|i: int| 0 <= i < variants@.len() && variants@[i] == value;
            assert(setting.spec_options()[i] == value.spec_name());
        }
        Setting::Select { setting, value: value.name().to_owned() }
    }

    /// An optional select over all variants of an enumeration, with `value`
    /// selected if there is one.
    pub fn optional_select_from_enum_all_variants<T: NamedVariants>(value: Option<T>) -> (r:
        Setting)
        ensures
            r.wf(),
            r@ == optional_select_view(value),
    {
        let variants = T::variants();
        let setting = Select::from_enum(variants.as_slice());
        let selected = match value {
            Some(variant) => {
                proof {
                    T::lemma_variants_complete(variant);
                    let i = choose|i: int| 0 <= i < variants@.len() && variants@[i] == variant;
                    assert(setting.spec_options()[i] == variant.spec_name());
                }
                Some(variant.name().to_owned())
            },
            None => None,
        };
        Setting::OptionalSelect { setting, value: selected }
    }

    /// A select over the given variants of an enumeration, with `value`
    /// selected. The setting is well formed exactly when `value` is among
    /// the variants.
    pub fn select_from_enum<T: NamedVariants>(variants: &[T], value: T) -> (r: Setting)
        ensures
            r@ == (SettingView::Select {
                options: names_of(variants@),
                localized_options: names_of(variants@),
                value: value.spec_name(),
            }),
            r.wf() <==> variants@.contains(value),
    {
        let setting = Select::from_enum(variants);
        proof {
            let options = setting.spec_options();
            if variants@.contains(value) {
                let i = choose|i: int| 0 <= i < variants@.len() && variants@[i] == value;
                assert(options[i] == value.spec_name());
            }
            if options.contains(value.spec_name()) {
                let i = choose|i: int| 0 <= i < options.len() && options[i] == value.spec_name();
                T::lemma_names_identify(variants@[i], value);
            }
        }
        Setting::Select { setting, value: value.name().to_owned() }
    }
}

impl Setting {
    /// A toggle.
    pub fn toggle(value: bool) -> (r: Setting)
        ensures
            r.wf(),
            r@ == (SettingView::Toggle { value }),
    {
        Setting::Toggle { value }
    }

    /// A read-only text that is shown as it is.
    pub fn information(text: String) -> (r: Setting)
        ensures
            r.wf(),
            r@ == information_view(text@),
    {
        let translated_value = text.clone();
        Setting::Information { value: text, translated_value }
    }
}

/// Whether a text is among the options of a select.
fn has_option(setting: &Select, selection: &str) -> (r: bool)
    ensures
        r == setting.spec_has_option(selection@),
{
    proof {
        setting.spec_options().index_of_first_ensures(selection@);
    }
    setting.position(selection).is_some()
}

impl From<Setting> for Value {
    fn from(setting: Setting) -> (r: Self) {
        match setting {
            Setting::Toggle { value } => Value::Bool(value),
            Setting::I32Range { value, .. } => Value::I32(value),
            Setting::Select { value, .. } => Value::String(value),
            Setting::OptionalSelect { value, .. } => Value::OptionalString(value),
            Setting::ModifiableSelect { value, .. } => Value::OptionalString(value),
            Setting::Equalizer { value, .. } => Value::I16Vec(value),
            Setting::Information { value, .. } => Value::String(value),
        }
    }
}

impl vstd::std_specs::convert::FromSpecImpl<Setting> for Value {
    open spec fn obeys_from_spec() -> bool {
        true
    }

    open spec fn from_spec(setting: Setting) -> Self {
        setting.spec_value()
    }
}

/// The value taken out of a well-formed setting is of the setting's kind and
/// lies in its domain.
pub proof fn lemma_value_of_setting_fits(setting: Setting)
    requires
        setting.wf(),
    ensures
        setting.kind_matches(setting.spec_value()),
        setting.value_fits(setting.spec_value()),
{
}

/// The label for a value of a setting.
///
/// For a select-like setting it is the label at the position of the first
/// option that equals the value; `none_label` where the value is absent,
/// matches no option, or matches one without a label. A value that is not
/// text, and any value of another kind of setting or of none, is written out
/// as it is.
pub open spec fn spec_localize_value(
    setting: Option<Setting>,
    value: Value,
    none_label: Seq<char>,
) -> Seq<char> {
    match setting {
        Some(Setting::Select { setting, .. })
        | Some(Setting::OptionalSelect { setting, .. })
        | Some(Setting::ModifiableSelect { setting, .. }) => match value.spec_optional_text() {
            Ok(Some(selection)) => match setting.spec_options().index_of_first(selection) {
                Some(position) => if position < setting.spec_localized_options().len() {
                    setting.spec_localized_options()[position]
                } else {
                    none_label
                },
                None => none_label,
            },
            Ok(None) => none_label,
            Err(_) => value.spec_text(),
        },
        _ => value.spec_text(),
    }
}

/// Exec counterpart of [`spec_localize_value`].
pub fn localize_value(setting: Option<&Setting>, value: &Value, none_label: &str) -> (r: String)
    ensures
        r@ == spec_localize_value(
            match setting {
                Some(setting) => Some(*setting),
                None => None,
            },
            *value,
            none_label@,
        ),
{
    match setting {
        Some(Setting::Select { setting, .. })
        | Some(Setting::OptionalSelect { setting, .. })
        | Some(Setting::ModifiableSelect { setting, .. }) => match value.try_as_optional_str() {
            Ok(Some(selection)) => localize_selection(setting, selection, none_label),
            Ok(None) => none_label.to_owned(),
            Err(_) => value.to_string(),
        },
        _ => value.to_string(),
    }
}

/// The label of a selection among the options of a select.
fn localize_selection(setting: &Select, selection: &str, none_label: &str) -> (r: String)
    ensures
        r@ == (match setting.spec_options().index_of_first(selection@) {
            Some(position) => if position < setting.spec_localized_options().len() {
                setting.spec_localized_options()[position]
            } else {
                none_label@
            },
            None => none_label@,
        }),
{
    match setting.position(selection) {
        Some(position) => match setting.localized_option(position) {
            Some(label) => label.clone(),
            None => none_label.to_owned(),
        },
        None => none_label.to_owned(),
    }
}

} // verus!
