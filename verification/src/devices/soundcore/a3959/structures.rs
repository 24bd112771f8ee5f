//! The structures that only this model has.

use vstd::prelude::*;

use crate::api::settings::names::NamedVariants;
use crate::devices::soundcore::standard::packets::parsing::{
    bool_of_byte, byte_of_bool, decode_bool, encode_bool, take_bytes, take_within, ByteEnum, Codec,
    DecodeError, Layout,
};
use crate::devices::soundcore::standard::structures::{
    AdaptiveNoiseCanceling, AmbientSoundMode, ManualNoiseCanceling, MultiSceneNoiseCanceling,
    SensitivityLevel, TransparencyMode,
};
use crate::devices::soundcore::standard::structures::sound_modes::MAX_SENSITIVITY_LEVEL;

verus! {

/// What a press of an earbud button does.
#[derive(Clone, Copy, Debug, PartialEq, Eq, Hash, Structural)]
pub enum ButtonAction {
    VolumeUp,
    VolumeDown,
    PreviousSong,
    NextSong,
    AmbientSoundMode,
    VoiceAssistant,
    PlayPause,
}

impl ByteEnum for ButtonAction {
    open spec fn spec_byte(self) -> u8 {
        match self {
            ButtonAction::VolumeUp => 0,
            ButtonAction::VolumeDown => 1,
            ButtonAction::PreviousSong => 2,
            ButtonAction::NextSong => 3,
            ButtonAction::AmbientSoundMode => 4,
            ButtonAction::VoiceAssistant => 5,
            ButtonAction::PlayPause => 6,
        }
    }

    open spec fn spec_from_byte(byte: u8) -> Option<Self> {
        if byte == 0 {
            Some(ButtonAction::VolumeUp)
        } else if byte == 1 {
            Some(ButtonAction::VolumeDown)
        } else if byte == 2 {
            Some(ButtonAction::PreviousSong)
        } else if byte == 3 {
            Some(ButtonAction::NextSong)
        } else if byte == 4 {
            Some(ButtonAction::AmbientSoundMode)
        } else if byte == 5 {
            Some(ButtonAction::VoiceAssistant)
        } else if byte == 6 {
            Some(ButtonAction::PlayPause)
        } else {
            None
        }
    }

    proof fn lemma_byte_identifies(v: Self, byte: u8) {
    }

    fn byte(self) -> (r: u8) {
        match self {
            ButtonAction::VolumeUp => 0,
            ButtonAction::VolumeDown => 1,
            ButtonAction::PreviousSong => 2,
            ButtonAction::NextSong => 3,
            ButtonAction::AmbientSoundMode => 4,
            ButtonAction::VoiceAssistant => 5,
            ButtonAction::PlayPause => 6,
        }
    }

    fn from_byte(byte: u8) -> (r: Option<Self>) {
        if byte == 0 {
            Some(ButtonAction::VolumeUp)
        } else if byte == 1 {
            Some(ButtonAction::VolumeDown)
        } else if byte == 2 {
            Some(ButtonAction::PreviousSong)
        } else if byte == 3 {
            Some(ButtonAction::NextSong)
        } else if byte == 4 {
            Some(ButtonAction::AmbientSoundMode)
        } else if byte == 5 {
            Some(ButtonAction::VoiceAssistant)
        } else if byte == 6 {
            Some(ButtonAction::PlayPause)
        } else {
            None
        }
    }
}

/// How the strength of noise canceling is chosen.
#[derive(Clone, Copy, Debug, PartialEq, Eq, Hash, Structural)]
pub enum A3959NoiseCancelingMode {
    Manual,
    Adaptive,
    MultiScene,
}

impl ByteEnum for A3959NoiseCancelingMode {
    open spec fn spec_byte(self) -> u8 {
        match self {
            A3959NoiseCancelingMode::Manual => 0,
            A3959NoiseCancelingMode::Adaptive => 1,
            A3959NoiseCancelingMode::MultiScene => 2,
        }
    }

    open spec fn spec_from_byte(byte: u8) -> Option<Self> {
        if byte == 0 {
            Some(A3959NoiseCancelingMode::Manual)
        } else if byte == 1 {
            Some(A3959NoiseCancelingMode::Adaptive)
        } else if byte == 2 {
            Some(A3959NoiseCancelingMode::MultiScene)
        } else {
            None
        }
    }

    proof fn lemma_byte_identifies(v: Self, byte: u8) {
    }

    fn byte(self) -> (r: u8) {
        match self {
            A3959NoiseCancelingMode::Manual => 0,
            A3959NoiseCancelingMode::Adaptive => 1,
            A3959NoiseCancelingMode::MultiScene => 2,
        }
    }

    fn from_byte(byte: u8) -> (r: Option<Self>) {
        if byte == 0 {
            Some(A3959NoiseCancelingMode::Manual)
        } else if byte == 1 {
            Some(A3959NoiseCancelingMode::Adaptive)
        } else if byte == 2 {
            Some(A3959NoiseCancelingMode::MultiScene)
        } else {
            None
        }
    }
}

impl NamedVariants for ButtonAction {
    open spec fn spec_name(self) -> Seq<char> {
        match self {
            ButtonAction::VolumeUp => "volumeUp"@,
            ButtonAction::VolumeDown => "volumeDown"@,
            ButtonAction::PreviousSong => "previousSong"@,
            ButtonAction::NextSong => "nextSong"@,
            ButtonAction::AmbientSoundMode => "ambientSoundMode"@,
            ButtonAction::VoiceAssistant => "voiceAssistant"@,
            ButtonAction::PlayPause => "playPause"@,
        }
    }

    open spec fn spec_variants() -> Seq<Self> {
        seq![
            ButtonAction::VolumeUp,
            ButtonAction::VolumeDown,
            ButtonAction::PreviousSong,
            ButtonAction::NextSong,
            ButtonAction::AmbientSoundMode,
            ButtonAction::VoiceAssistant,
            ButtonAction::PlayPause,
        ]
    }

    proof fn lemma_names_identify(a: Self, b: Self) {
        reveal_strlit("volumeUp");
        reveal_strlit("volumeDown");
        reveal_strlit("previousSong");
        reveal_strlit("nextSong");
        reveal_strlit("ambientSoundMode");
        reveal_strlit("voiceAssistant");
        reveal_strlit("playPause");
        if a.spec_name() == b.spec_name() {
            let x = a.spec_name();
            let y = b.spec_name();
            assert(x.len() == y.len());
            assert(x[0] == y[0]);
        }
    }

    proof fn lemma_variants_complete(v: Self) {
        let all = Self::spec_variants();
        match v {
            ButtonAction::VolumeUp => assert(all[0] == v),
            ButtonAction::VolumeDown => assert(all[1] == v),
            ButtonAction::PreviousSong => assert(all[2] == v),
            ButtonAction::NextSong => assert(all[3] == v),
            ButtonAction::AmbientSoundMode => assert(all[4] == v),
            ButtonAction::VoiceAssistant => assert(all[5] == v),
            ButtonAction::PlayPause => assert(all[6] == v),
        }
    }

    fn name(self) -> (r: &'static str) {
        match self {
            ButtonAction::VolumeUp => "volumeUp",
            ButtonAction::VolumeDown => "volumeDown",
            ButtonAction::PreviousSong => "previousSong",
            ButtonAction::NextSong => "nextSong",
            ButtonAction::AmbientSoundMode => "ambientSoundMode",
            ButtonAction::VoiceAssistant => "voiceAssistant",
            ButtonAction::PlayPause => "playPause",
        }
    }

    fn variants() -> (r: Vec<Self>) {
        let all = vec![
            ButtonAction::VolumeUp,
            ButtonAction::VolumeDown,
            ButtonAction::PreviousSong,
            ButtonAction::NextSong,
            ButtonAction::AmbientSoundMode,
            ButtonAction::VoiceAssistant,
            ButtonAction::PlayPause,
        ];
        assert(all@ =~= Self::spec_variants());
        all
    }
}

impl NamedVariants for A3959NoiseCancelingMode {
    open spec fn spec_name(self) -> Seq<char> {
        match self {
            A3959NoiseCancelingMode::Manual => "manual"@,
            A3959NoiseCancelingMode::Adaptive => "adaptive"@,
            A3959NoiseCancelingMode::MultiScene => "multiScene"@,
        }
    }

    open spec fn spec_variants() -> Seq<Self> {
        seq![
            A3959NoiseCancelingMode::Manual,
            A3959NoiseCancelingMode::Adaptive,
            A3959NoiseCancelingMode::MultiScene,
        ]
    }

    proof fn lemma_names_identify(a: Self, b: Self) {
        reveal_strlit("manual");
        reveal_strlit("adaptive");
        reveal_strlit("multiScene");
        if a.spec_name() == b.spec_name() {
            let x = a.spec_name();
            let y = b.spec_name();
            assert(x.len() == y.len());
        }
    }

    proof fn lemma_variants_complete(v: Self) {
        let all = Self::spec_variants();
        match v {
            A3959NoiseCancelingMode::Manual => assert(all[0] == v),
            A3959NoiseCancelingMode::Adaptive => assert(all[1] == v),
            A3959NoiseCancelingMode::MultiScene => assert(all[2] == v),
        }
    }

    fn name(self) -> (r: &'static str) {
        match self {
            A3959NoiseCancelingMode::Manual => "manual",
            A3959NoiseCancelingMode::Adaptive => "adaptive",
            A3959NoiseCancelingMode::MultiScene => "multiScene",
        }
    }

    fn variants() -> (r: Vec<Self>) {
        let all = vec![
            A3959NoiseCancelingMode::Manual,
            A3959NoiseCancelingMode::Adaptive,
            A3959NoiseCancelingMode::MultiScene,
        ];
        assert(all@ =~= Self::spec_variants());
        all
    }
}

/// What one button press is set to do, and whether it does anything.
///
/// On the wire: the enabled flag, then the action, one byte each.
#[derive(Clone, Copy, Debug, PartialEq, Eq, Hash, Structural)]
pub struct ButtonSlot {
    pub is_enabled: bool,
    pub action: ButtonAction,
}

impl Layout for ButtonSlot {
    open spec fn width() -> nat {
        2
    }

    open spec fn accepts(window: Seq<u8>) -> bool {
        ButtonAction::spec_from_byte(window[1]) is Some
    }

    open spec fn parsed(window: Seq<u8>) -> Self {
        ButtonSlot {
            is_enabled: bool_of_byte(window[0]),
            action: ButtonAction::spec_from_byte(window[1])->0,
        }
    }

    open spec fn canonical(window: Seq<u8>) -> bool {
        window[0] <= 1
    }

    open spec fn wf(&self) -> bool {
        true
    }

    open spec fn spec_bytes(&self) -> Seq<u8> {
        seq![byte_of_bool(self.is_enabled), self.action.spec_byte()]
    }

    proof fn lemma_bytes_parse_back(v: Self) {
    }

    proof fn lemma_canonical_rewrites_to_itself(window: Seq<u8>) {
        ButtonAction::lemma_byte_identifies(ButtonAction::spec_from_byte(window[1])->0, window[1]);
        assert(Self::parsed(window).spec_bytes() =~= window);
    }

    proof fn lemma_parsed_wf(window: Seq<u8>) {
    }
}

impl Codec for ButtonSlot {
    fn take<'a>(input: &'a [u8]) -> (r: Result<(&'a [u8], Self), DecodeError>) {
        let (rest, window) = match take_bytes(input, 2) {
            Ok(split) => split,
            Err(_) => return Err(DecodeError::Incomplete),
        };
        let is_enabled = decode_bool(window[0]);
        let action = match ButtonAction::from_byte(window[1]) {
            Some(action) => action,
            None => return Err(DecodeError::Malformed),
        };
        Ok((rest, ButtonSlot { is_enabled, action }))
    }

    fn bytes(&self) -> (r: Vec<u8>) {
        let mut out: Vec<u8> = Vec::new();
        out.push(encode_bool(self.is_enabled));
        out.push(self.action.byte());
        out
    }
}

/// Six slots written one after the other lie at their places in the whole.
proof fn lemma_six_slots(
    a: Seq<u8>,
    b: Seq<u8>,
    c: Seq<u8>,
    d: Seq<u8>,
    e: Seq<u8>,
    f: Seq<u8>,
)
    requires
        a.len() == 2,
        b.len() == 2,
        c.len() == 2,
        d.len() == 2,
        e.len() == 2,
        f.len() == 2,
    ensures
        (a + b + c + d + e + f).len() == 12,
        (a + b + c + d + e + f).subrange(0, 2) == a,
        (a + b + c + d + e + f).subrange(2, 4) == b,
        (a + b + c + d + e + f).subrange(4, 6) == c,
        (a + b + c + d + e + f).subrange(6, 8) == d,
        (a + b + c + d + e + f).subrange(8, 10) == e,
        (a + b + c + d + e + f).subrange(10, 12) == f,
{
    let whole = a + b + c + d + e + f;
    assert(whole.subrange(0, 2) =~= a);
    assert(whole.subrange(2, 4) =~= b);
    assert(whole.subrange(4, 6) =~= c);
    assert(whole.subrange(6, 8) =~= d);
    assert(whole.subrange(8, 10) =~= e);
    assert(whole.subrange(10, 12) =~= f);
}

/// The six button presses of the earbuds and what each is set to do.
///
/// On the wire: six slots, the left earbud's single, double and long press,
/// then the right earbud's.
#[derive(Clone, Copy, Debug, PartialEq, Eq, Hash, Structural)]
pub struct A3959MultiButtonConfiguration {
    pub left_single_press: ButtonSlot,
    pub left_double_press: ButtonSlot,
    pub left_long_press: ButtonSlot,
    pub right_single_press: ButtonSlot,
    pub right_double_press: ButtonSlot,
    pub right_long_press: ButtonSlot,
}

impl Layout for A3959MultiButtonConfiguration {
    open spec fn width() -> nat {
        12
    }

    open spec fn accepts(window: Seq<u8>) -> bool {
        &&& ButtonSlot::accepts(window.subrange(0, 2))
        &&& ButtonSlot::accepts(window.subrange(2, 4))
        &&& ButtonSlot::accepts(window.subrange(4, 6))
        &&& ButtonSlot::accepts(window.subrange(6, 8))
        &&& ButtonSlot::accepts(window.subrange(8, 10))
        &&& ButtonSlot::accepts(window.subrange(10, 12))
    }

    open spec fn parsed(window: Seq<u8>) -> Self {
        A3959MultiButtonConfiguration {
            left_single_press: ButtonSlot::parsed(window.subrange(0, 2)),
            left_double_press: ButtonSlot::parsed(window.subrange(2, 4)),
            left_long_press: ButtonSlot::parsed(window.subrange(4, 6)),
            right_single_press: ButtonSlot::parsed(window.subrange(6, 8)),
            right_double_press: ButtonSlot::parsed(window.subrange(8, 10)),
            right_long_press: ButtonSlot::parsed(window.subrange(10, 12)),
        }
    }

    open spec fn canonical(window: Seq<u8>) -> bool {
        &&& ButtonSlot::canonical(window.subrange(0, 2))
        &&& ButtonSlot::canonical(window.subrange(2, 4))
        &&& ButtonSlot::canonical(window.subrange(4, 6))
        &&& ButtonSlot::canonical(window.subrange(6, 8))
        &&& ButtonSlot::canonical(window.subrange(8, 10))
        &&& ButtonSlot::canonical(window.subrange(10, 12))
    }

    open spec fn wf(&self) -> bool {
        true
    }

    open spec fn spec_bytes(&self) -> Seq<u8> {
        self.left_single_press.spec_bytes() + self.left_double_press.spec_bytes()
            + self.left_long_press.spec_bytes() + self.right_single_press.spec_bytes()
            + self.right_double_press.spec_bytes() + self.right_long_press.spec_bytes()
    }

    proof fn lemma_bytes_parse_back(v: Self) {
        ButtonSlot::lemma_bytes_parse_back(v.left_single_press);
        ButtonSlot::lemma_bytes_parse_back(v.left_double_press);
        ButtonSlot::lemma_bytes_parse_back(v.left_long_press);
        ButtonSlot::lemma_bytes_parse_back(v.right_single_press);
        ButtonSlot::lemma_bytes_parse_back(v.right_double_press);
        ButtonSlot::lemma_bytes_parse_back(v.right_long_press);
        lemma_six_slots(
            v.left_single_press.spec_bytes(),
            v.left_double_press.spec_bytes(),
            v.left_long_press.spec_bytes(),
            v.right_single_press.spec_bytes(),
            v.right_double_press.spec_bytes(),
            v.right_long_press.spec_bytes(),
        );
    }

    proof fn lemma_canonical_rewrites_to_itself(window: Seq<u8>) {
        ButtonSlot::lemma_canonical_rewrites_to_itself(window.subrange(0, 2));
        ButtonSlot::lemma_canonical_rewrites_to_itself(window.subrange(2, 4));
        ButtonSlot::lemma_canonical_rewrites_to_itself(window.subrange(4, 6));
        ButtonSlot::lemma_canonical_rewrites_to_itself(window.subrange(6, 8));
        ButtonSlot::lemma_canonical_rewrites_to_itself(window.subrange(8, 10));
        ButtonSlot::lemma_canonical_rewrites_to_itself(window.subrange(10, 12));
        assert(window.subrange(0, 2) + window.subrange(2, 4) + window.subrange(4, 6)
            + window.subrange(6, 8) + window.subrange(8, 10) + window.subrange(10, 12)
            =~= window);
    }

    proof fn lemma_parsed_wf(window: Seq<u8>) {
    }
}

impl Codec for A3959MultiButtonConfiguration {
    fn take<'a>(input: &'a [u8]) -> (r: Result<(&'a [u8], Self), DecodeError>) {
        let (rest, window) = match take_bytes(input, 12) {
            Ok(split) => split,
            Err(_) => return Err(DecodeError::Incomplete),
        };
        let ghost w = window@;
        assert(w.skip(0) =~= w);
        let (cursor, left_single_press) = match take_within::<ButtonSlot>(
            window,
            Ghost(w),
            Ghost(0),
        ) {
            Some(read) => read,
            None => return Err(DecodeError::Malformed),
        };
        let (cursor, left_double_press) = match take_within::<ButtonSlot>(
            cursor,
            Ghost(w),
            Ghost(2),
        ) {
            Some(read) => read,
            None => return Err(DecodeError::Malformed),
        };
        let (cursor, left_long_press) = match take_within::<ButtonSlot>(
            cursor,
            Ghost(w),
            Ghost(4),
        ) {
            Some(read) => read,
            None => return Err(DecodeError::Malformed),
        };
        let (cursor, right_single_press) = match take_within::<ButtonSlot>(
            cursor,
            Ghost(w),
            Ghost(6),
        ) {
            Some(read) => read,
            None => return Err(DecodeError::Malformed),
        };
        let (cursor, right_double_press) = match take_within::<ButtonSlot>(
            cursor,
            Ghost(w),
            Ghost(8),
        ) {
            Some(read) => read,
            None => return Err(DecodeError::Malformed),
        };
        let (_, right_long_press) = match take_within::<ButtonSlot>(cursor, Ghost(w), Ghost(10)) {
            Some(read) => read,
            None => return Err(DecodeError::Malformed),
        };
        Ok(
            (
                rest,
                A3959MultiButtonConfiguration {
                    left_single_press,
                    left_double_press,
                    left_long_press,
                    right_single_press,
                    right_double_press,
                    right_long_press,
                },
            ),
        )
    }

    fn bytes(&self) -> (r: Vec<u8>) {
        let mut out = self.left_single_press.bytes();
        let mut part = self.left_double_press.bytes();
        out.append(&mut part);
        let mut part = self.left_long_press.bytes();
        out.append(&mut part);
        let mut part = self.right_single_press.bytes();
        out.append(&mut part);
        let mut part = self.right_double_press.bytes();
        out.append(&mut part);
        let mut part = self.right_long_press.bytes();
        out.append(&mut part);
        out
    }
}

/// The sound mode settings of the earbuds.
///
/// On the wire it is seven bytes: the ambient sound mode; the strengths of
/// manual and of adaptive noise canceling, sixteen times the first plus the
/// second; the transparency mode; the noise canceling mode; the wind noise
/// flag; the adaptive sensitivity level; the noise canceling scene.
#[derive(Clone, Copy, Debug, PartialEq, Eq, Hash)]
pub struct A3959SoundModes {
    pub ambient_sound_mode: AmbientSoundMode,
    pub manual_noise_canceling: ManualNoiseCanceling,
    pub adaptive_noise_canceling: AdaptiveNoiseCanceling,
    pub transparency_mode: TransparencyMode,
    pub noise_canceling_mode: A3959NoiseCancelingMode,
    pub wind_noise_suppression: bool,
    pub adaptive_sensitivity_level: SensitivityLevel,
    pub multi_scene_noise_canceling: MultiSceneNoiseCanceling,
}

impl Layout for A3959SoundModes {
    open spec fn width() -> nat {
        7
    }

    open spec fn accepts(window: Seq<u8>) -> bool {
        &&& AmbientSoundMode::spec_from_byte(window[0]) is Some
        &&& ManualNoiseCanceling::spec_from_byte(window[1] / 16) is Some
        &&& AdaptiveNoiseCanceling::spec_from_byte(window[1] % 16) is Some
        &&& TransparencyMode::spec_from_byte(window[2]) is Some
        &&& A3959NoiseCancelingMode::spec_from_byte(window[3]) is Some
        &&& window[5] <= MAX_SENSITIVITY_LEVEL
        &&& MultiSceneNoiseCanceling::spec_from_byte(window[6]) is Some
    }

    open spec fn parsed(window: Seq<u8>) -> Self {
        A3959SoundModes {
            ambient_sound_mode: AmbientSoundMode::spec_from_byte(window[0])->0,
            manual_noise_canceling: ManualNoiseCanceling::spec_from_byte(window[1] / 16)->0,
            adaptive_noise_canceling: AdaptiveNoiseCanceling::spec_from_byte(window[1] % 16)->0,
            transparency_mode: TransparencyMode::spec_from_byte(window[2])->0,
            noise_canceling_mode: A3959NoiseCancelingMode::spec_from_byte(window[3])->0,
            wind_noise_suppression: bool_of_byte(window[4]),
            adaptive_sensitivity_level: SensitivityLevel::spec_new(window[5]),
            multi_scene_noise_canceling: MultiSceneNoiseCanceling::spec_from_byte(window[6])->0,
        }
    }

    open spec fn canonical(window: Seq<u8>) -> bool {
        window[4] <= 1
    }

    open spec fn wf(&self) -> bool {
        self.adaptive_sensitivity_level.spec_level() <= MAX_SENSITIVITY_LEVEL
    }

    open spec fn spec_bytes(&self) -> Seq<u8> {
        seq![
            self.ambient_sound_mode.spec_byte(),
            (self.manual_noise_canceling.spec_byte() * 16
                + self.adaptive_noise_canceling.spec_byte()) as u8,
            self.transparency_mode.spec_byte(),
            self.noise_canceling_mode.spec_byte(),
            byte_of_bool(self.wind_noise_suppression),
            self.adaptive_sensitivity_level.spec_level(),
            self.multi_scene_noise_canceling.spec_byte(),
        ]
    }

    proof fn lemma_bytes_parse_back(v: Self) {
        let level = v.adaptive_sensitivity_level;
        SensitivityLevel::lemma_number(level.spec_level());
        SensitivityLevel::lemma_same_number(SensitivityLevel::spec_new(level.spec_level()), level);
    }

    proof fn lemma_canonical_rewrites_to_itself(window: Seq<u8>) {
        SensitivityLevel::lemma_number(window[5]);
        assert(Self::parsed(window).spec_bytes() =~= window);
    }

    proof fn lemma_parsed_wf(window: Seq<u8>) {
        SensitivityLevel::lemma_number(window[5]);
    }
}

impl Codec for A3959SoundModes {
    fn take<'a>(input: &'a [u8]) -> (r: Result<(&'a [u8], Self), DecodeError>) {
        let (rest, window) = match take_bytes(input, 7) {
            Ok(split) => split,
            Err(_) => return Err(DecodeError::Incomplete),
        };
        let ambient_sound_mode = match AmbientSoundMode::from_byte(window[0]) {
            Some(mode) => mode,
            None => return Err(DecodeError::Malformed),
        };
        let manual_noise_canceling = match ManualNoiseCanceling::from_byte(window[1] / 16) {
            Some(strength) => strength,
            None => return Err(DecodeError::Malformed),
        };
        let adaptive_noise_canceling = match AdaptiveNoiseCanceling::from_byte(window[1] % 16) {
            Some(strength) => strength,
            None => return Err(DecodeError::Malformed),
        };
        let transparency_mode = match TransparencyMode::from_byte(window[2]) {
            Some(mode) => mode,
            None => return Err(DecodeError::Malformed),
        };
        let noise_canceling_mode = match A3959NoiseCancelingMode::from_byte(window[3]) {
            Some(mode) => mode,
            None => return Err(DecodeError::Malformed),
        };
        let wind_noise_suppression = decode_bool(window[4]);
        let adaptive_sensitivity_level = match SensitivityLevel::new(window[5]) {
            Some(level) => level,
            None => return Err(DecodeError::Malformed),
        };
        let multi_scene_noise_canceling = match MultiSceneNoiseCanceling::from_byte(window[6]) {
            Some(scene) => scene,
            None => return Err(DecodeError::Malformed),
        };
        Ok(
            (
                rest,
                A3959SoundModes {
                    ambient_sound_mode,
                    manual_noise_canceling,
                    adaptive_noise_canceling,
                    transparency_mode,
                    noise_canceling_mode,
                    wind_noise_suppression,
                    adaptive_sensitivity_level,
                    multi_scene_noise_canceling,
                },
            ),
        )
    }

    fn bytes(&self) -> (r: Vec<u8>) {
        let mut out: Vec<u8> = Vec::new();
        out.push(self.ambient_sound_mode.byte());
        out.push(self.manual_noise_canceling.byte() * 16 + self.adaptive_noise_canceling.byte());
        out.push(self.transparency_mode.byte());
        out.push(self.noise_canceling_mode.byte());
        out.push(encode_bool(self.wind_noise_suppression));
        out.push(self.adaptive_sensitivity_level.level());
        out.push(self.multi_scene_noise_canceling.byte());
        out
    }
}

} // verus!
