//! Structures that several models report.

pub mod ambient_sound_mode_cycle;
pub mod battery;
pub mod equalizer_configuration;
pub mod firmware_version;
pub mod serial_number;
pub mod sound_modes;
pub mod tws_status;

pub use self::ambient_sound_mode_cycle::AmbientSoundModeCycle;
pub use self::battery::{DualBattery, SingleBattery};
pub use self::equalizer_configuration::EqualizerConfiguration;
pub use self::firmware_version::{DualFirmwareVersion, FirmwareVersion};
pub use self::serial_number::SerialNumber;
pub use self::sound_modes::{
    AdaptiveNoiseCanceling, AmbientSoundMode, ManualNoiseCanceling, MultiSceneNoiseCanceling,
    SensitivityLevel, TransparencyMode,
};
pub use self::tws_status::{HostDevice, TwsStatus};
