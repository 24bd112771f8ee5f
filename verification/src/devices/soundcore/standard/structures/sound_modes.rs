//! The enumerations and levels that sound mode settings are made of.

use vstd::prelude::*;

use crate::api::settings::names::NamedVariants;
use crate::devices::soundcore::standard::packets::parsing::ByteEnum;

verus! {

/// What the earbuds do with outside sound.
#[derive(Clone, Copy, Debug, PartialEq, Eq, Hash, Structural)]
pub enum AmbientSoundMode {
    NoiseCanceling,
    Transparency,
    Normal,
}

impl ByteEnum for AmbientSoundMode {
    open spec fn spec_byte(self) -> u8 {
        match self {
            AmbientSoundMode::NoiseCanceling => 0,
            AmbientSoundMode::Transparency => 1,
            AmbientSoundMode::Normal => 2,
        }
    }

    open spec fn spec_from_byte(byte: u8) -> Option<Self> {
        if byte == 0 {
            Some(AmbientSoundMode::NoiseCanceling)
        } else if byte == 1 {
            Some(AmbientSoundMode::Transparency)
        } else if byte == 2 {
            Some(AmbientSoundMode::Normal)
        } else {
            None
        }
    }

    proof fn lemma_byte_identifies(v: Self, byte: u8) {
    }

    fn byte(self) -> (r: u8) {
        match self {
            AmbientSoundMode::NoiseCanceling => 0,
            AmbientSoundMode::Transparency => 1,
            AmbientSoundMode::Normal => 2,
        }
    }

    fn from_byte(byte: u8) -> (r: Option<Self>) {
        if byte == 0 {
            Some(AmbientSoundMode::NoiseCanceling)
        } else if byte == 1 {
            Some(AmbientSoundMode::Transparency)
        } else if byte == 2 {
            Some(AmbientSoundMode::Normal)
        } else {
            None
        }
    }
}

/// How much outside sound transparency lets through.
#[derive(Clone, Copy, Debug, PartialEq, Eq, Hash, Structural)]
pub enum TransparencyMode {
    FullyTransparent,
    VocalMode,
}

impl ByteEnum for TransparencyMode {
    open spec fn spec_byte(self) -> u8 {
        match self {
            TransparencyMode::FullyTransparent => 0,
            TransparencyMode::VocalMode => 1,
        }
    }

    open spec fn spec_from_byte(byte: u8) -> Option<Self> {
        if byte == 0 {
            Some(TransparencyMode::FullyTransparent)
        } else if byte == 1 {
            Some(TransparencyMode::VocalMode)
        } else {
            None
        }
    }

    proof fn lemma_byte_identifies(v: Self, byte: u8) {
    }

    fn byte(self) -> (r: u8) {
        match self {
            TransparencyMode::FullyTransparent => 0,
            TransparencyMode::VocalMode => 1,
        }
    }

    fn from_byte(byte: u8) -> (r: Option<Self>) {
        if byte == 0 {
            Some(TransparencyMode::FullyTransparent)
        } else if byte == 1 {
            Some(TransparencyMode::VocalMode)
        } else {
            None
        }
    }
}

/// Strength of noise canceling when it is set by hand.
#[derive(Clone, Copy, Debug, PartialEq, Eq, Hash, Structural)]
pub enum ManualNoiseCanceling {
    Weak,
    Moderate,
    Strong,
}

impl ByteEnum for ManualNoiseCanceling {
    open spec fn spec_byte(self) -> u8 {
        match self {
            ManualNoiseCanceling::Weak => 1,
            ManualNoiseCanceling::Moderate => 2,
            ManualNoiseCanceling::Strong => 3,
        }
    }

    open spec fn spec_from_byte(byte: u8) -> Option<Self> {
        if byte == 1 {
            Some(ManualNoiseCanceling::Weak)
        } else if byte == 2 {
            Some(ManualNoiseCanceling::Moderate)
        } else if byte == 3 {
            Some(ManualNoiseCanceling::Strong)
        } else {
            None
        }
    }

    proof fn lemma_byte_identifies(v: Self, byte: u8) {
    }

    fn byte(self) -> (r: u8) {
        match self {
            ManualNoiseCanceling::Weak => 1,
            ManualNoiseCanceling::Moderate => 2,
            ManualNoiseCanceling::Strong => 3,
        }
    }

    fn from_byte(byte: u8) -> (r: Option<Self>) {
        if byte == 1 {
            Some(ManualNoiseCanceling::Weak)
        } else if byte == 2 {
            Some(ManualNoiseCanceling::Moderate)
        } else if byte == 3 {
            Some(ManualNoiseCanceling::Strong)
        } else {
            None
        }
    }
}

/// How much noise the earbuds currently measure and cancel.
#[derive(Clone, Copy, Debug, PartialEq, Eq, Hash, Structural)]
pub enum AdaptiveNoiseCanceling {
    LowNoise,
    MediumNoise,
    HighNoise,
}

impl ByteEnum for AdaptiveNoiseCanceling {
    open spec fn spec_byte(self) -> u8 {
        match self {
            AdaptiveNoiseCanceling::LowNoise => 0,
            AdaptiveNoiseCanceling::MediumNoise => 1,
            AdaptiveNoiseCanceling::HighNoise => 2,
        }
    }

    open spec fn spec_from_byte(byte: u8) -> Option<Self> {
        if byte == 0 {
            Some(AdaptiveNoiseCanceling::LowNoise)
        } else if byte == 1 {
            Some(AdaptiveNoiseCanceling::MediumNoise)
        } else if byte == 2 {
            Some(AdaptiveNoiseCanceling::HighNoise)
        } else {
            None
        }
    }

    proof fn lemma_byte_identifies(v: Self, byte: u8) {
    }

    fn byte(self) -> (r: u8) {
        match self {
            AdaptiveNoiseCanceling::LowNoise => 0,
            AdaptiveNoiseCanceling::MediumNoise => 1,
            AdaptiveNoiseCanceling::HighNoise => 2,
        }
    }

    fn from_byte(byte: u8) -> (r: Option<Self>) {
        if byte == 0 {
            Some(AdaptiveNoiseCanceling::LowNoise)
        } else if byte == 1 {
            Some(AdaptiveNoiseCanceling::MediumNoise)
        } else if byte == 2 {
            Some(AdaptiveNoiseCanceling::HighNoise)
        } else {
            None
        }
    }
}

/// The surroundings that scene-based noise canceling is tuned for.
#[derive(Clone, Copy, Debug, PartialEq, Eq, Hash, Structural)]
pub enum MultiSceneNoiseCanceling {
    Indoor,
    Outdoor,
    Transport,
}

impl ByteEnum for MultiSceneNoiseCanceling {
    open spec fn spec_byte(self) -> u8 {
        match self {
            MultiSceneNoiseCanceling::Indoor => 0,
            MultiSceneNoiseCanceling::Outdoor => 1,
            MultiSceneNoiseCanceling::Transport => 2,
        }
    }

    open spec fn spec_from_byte(byte: u8) -> Option<Self> {
        if byte == 0 {
            Some(MultiSceneNoiseCanceling::Indoor)
        } else if byte == 1 {
            Some(MultiSceneNoiseCanceling::Outdoor)
        } else if byte == 2 {
            Some(MultiSceneNoiseCanceling::Transport)
        } else {
            None
        }
    }

    proof fn lemma_byte_identifies(v: Self, byte: u8) {
    }

    fn byte(self) -> (r: u8) {
        match self {
            MultiSceneNoiseCanceling::Indoor => 0,
            MultiSceneNoiseCanceling::Outdoor => 1,
            MultiSceneNoiseCanceling::Transport => 2,
        }
    }

    fn from_byte(byte: u8) -> (r: Option<Self>) {
        if byte == 0 {
            Some(MultiSceneNoiseCanceling::Indoor)
        } else if byte == 1 {
            Some(MultiSceneNoiseCanceling::Outdoor)
        } else if byte == 2 {
            Some(MultiSceneNoiseCanceling::Transport)
        } else {
            None
        }
    }
}

impl NamedVariants for AmbientSoundMode {
    open spec fn spec_name(self) -> Seq<char> {
        match self {
            AmbientSoundMode::NoiseCanceling => "noiseCanceling"@,
            AmbientSoundMode::Transparency => "transparency"@,
            AmbientSoundMode::Normal => "normal"@,
        }
    }

    open spec fn spec_variants() -> Seq<Self> {
        seq![
            AmbientSoundMode::NoiseCanceling,
            AmbientSoundMode::Transparency,
            AmbientSoundMode::Normal,
        ]
    }

    proof fn lemma_names_identify(a: Self, b: Self) {
        reveal_strlit("noiseCanceling");
        reveal_strlit("transparency");
        reveal_strlit("normal");
        if a.spec_name() == b.spec_name() {
            let x = a.spec_name();
            let y = b.spec_name();
            assert(x.len() == y.len());
        }
    }

    proof fn lemma_variants_complete(v: Self) {
        let all = Self::spec_variants();
        match v {
            AmbientSoundMode::NoiseCanceling => assert(all[0] == v),
            AmbientSoundMode::Transparency => assert(all[1] == v),
            AmbientSoundMode::Normal => assert(all[2] == v),
        }
    }

    fn name(self) -> (r: &'static str) {
        match self {
            AmbientSoundMode::NoiseCanceling => "noiseCanceling",
            AmbientSoundMode::Transparency => "transparency",
            AmbientSoundMode::Normal => "normal",
        }
    }

    fn variants() -> (r: Vec<Self>) {
        let all = vec![
            AmbientSoundMode::NoiseCanceling,
            AmbientSoundMode::Transparency,
            AmbientSoundMode::Normal,
        ];
        assert(all@ =~= Self::spec_variants());
        all
    }
}

impl NamedVariants for TransparencyMode {
    open spec fn spec_name(self) -> Seq<char> {
        match self {
            TransparencyMode::FullyTransparent => "fullyTransparent"@,
            TransparencyMode::VocalMode => "vocalMode"@,
        }
    }

    open spec fn spec_variants() -> Seq<Self> {
        seq![
            TransparencyMode::FullyTransparent,
            TransparencyMode::VocalMode,
        ]
    }

    proof fn lemma_names_identify(a: Self, b: Self) {
        reveal_strlit("fullyTransparent");
        reveal_strlit("vocalMode");
        if a.spec_name() == b.spec_name() {
            let x = a.spec_name();
            let y = b.spec_name();
            assert(x.len() == y.len());
        }
    }

    proof fn lemma_variants_complete(v: Self) {
        let all = Self::spec_variants();
        match v {
            TransparencyMode::FullyTransparent => assert(all[0] == v),
            TransparencyMode::VocalMode => assert(all[1] == v),
        }
    }

    fn name(self) -> (r: &'static str) {
        match self {
            TransparencyMode::FullyTransparent => "fullyTransparent",
            TransparencyMode::VocalMode => "vocalMode",
        }
    }

    fn variants() -> (r: Vec<Self>) {
        let all = vec![
            TransparencyMode::FullyTransparent,
            TransparencyMode::VocalMode,
        ];
        assert(all@ =~= Self::spec_variants());
        all
    }
}

impl NamedVariants for ManualNoiseCanceling {
    open spec fn spec_name(self) -> Seq<char> {
        match self {
            ManualNoiseCanceling::Weak => "weak"@,
            ManualNoiseCanceling::Moderate => "moderate"@,
            ManualNoiseCanceling::Strong => "strong"@,
        }
    }

    open spec fn spec_variants() -> Seq<Self> {
        seq![
            ManualNoiseCanceling::Weak,
            ManualNoiseCanceling::Moderate,
            ManualNoiseCanceling::Strong,
        ]
    }

    proof fn lemma_names_identify(a: Self, b: Self) {
        reveal_strlit("weak");
        reveal_strlit("moderate");
        reveal_strlit("strong");
        if a.spec_name() == b.spec_name() {
            let x = a.spec_name();
            let y = b.spec_name();
            assert(x.len() == y.len());
        }
    }

    proof fn lemma_variants_complete(v: Self) {
        let all = Self::spec_variants();
        match v {
            ManualNoiseCanceling::Weak => assert(all[0] == v),
            ManualNoiseCanceling::Moderate => assert(all[1] == v),
            ManualNoiseCanceling::Strong => assert(all[2] == v),
        }
    }

    fn name(self) -> (r: &'static str) {
        match self {
            ManualNoiseCanceling::Weak => "weak",
            ManualNoiseCanceling::Moderate => "moderate",
            ManualNoiseCanceling::Strong => "strong",
        }
    }

    fn variants() -> (r: Vec<Self>) {
        let all = vec![
            ManualNoiseCanceling::Weak,
            ManualNoiseCanceling::Moderate,
            ManualNoiseCanceling::Strong,
        ];
        assert(all@ =~= Self::spec_variants());
        all
    }
}

impl NamedVariants for AdaptiveNoiseCanceling {
    open spec fn spec_name(self) -> Seq<char> {
        match self {
            AdaptiveNoiseCanceling::LowNoise => "lowNoise"@,
            AdaptiveNoiseCanceling::MediumNoise => "mediumNoise"@,
            AdaptiveNoiseCanceling::HighNoise => "highNoise"@,
        }
    }

    open spec fn spec_variants() -> Seq<Self> {
        seq![
            AdaptiveNoiseCanceling::LowNoise,
            AdaptiveNoiseCanceling::MediumNoise,
            AdaptiveNoiseCanceling::HighNoise,
        ]
    }

    proof fn lemma_names_identify(a: Self, b: Self) {
        reveal_strlit("lowNoise");
        reveal_strlit("mediumNoise");
        reveal_strlit("highNoise");
        if a.spec_name() == b.spec_name() {
            let x = a.spec_name();
            let y = b.spec_name();
            assert(x.len() == y.len());
        }
    }

    proof fn lemma_variants_complete(v: Self) {
        let all = Self::spec_variants();
        match v {
            AdaptiveNoiseCanceling::LowNoise => assert(all[0] == v),
            AdaptiveNoiseCanceling::MediumNoise => assert(all[1] == v),
            AdaptiveNoiseCanceling::HighNoise => assert(all[2] == v),
        }
    }

    fn name(self) -> (r: &'static str) {
        match self {
            AdaptiveNoiseCanceling::LowNoise => "lowNoise",
            AdaptiveNoiseCanceling::MediumNoise => "mediumNoise",
            AdaptiveNoiseCanceling::HighNoise => "highNoise",
        }
    }

    fn variants() -> (r: Vec<Self>) {
        let all = vec![
            AdaptiveNoiseCanceling::LowNoise,
            AdaptiveNoiseCanceling::MediumNoise,
            AdaptiveNoiseCanceling::HighNoise,
        ];
        assert(all@ =~= Self::spec_variants());
        all
    }
}

impl NamedVariants for MultiSceneNoiseCanceling {
    open spec fn spec_name(self) -> Seq<char> {
        match self {
            MultiSceneNoiseCanceling::Indoor => "indoor"@,
            MultiSceneNoiseCanceling::Outdoor => "outdoor"@,
            MultiSceneNoiseCanceling::Transport => "transport"@,
        }
    }

    open spec fn spec_variants() -> Seq<Self> {
        seq![
            MultiSceneNoiseCanceling::Indoor,
            MultiSceneNoiseCanceling::Outdoor,
            MultiSceneNoiseCanceling::Transport,
        ]
    }

    proof fn lemma_names_identify(a: Self, b: Self) {
        reveal_strlit("indoor");
        reveal_strlit("outdoor");
        reveal_strlit("transport");
        if a.spec_name() == b.spec_name() {
            let x = a.spec_name();
            let y = b.spec_name();
            assert(x.len() == y.len());
        }
    }

    proof fn lemma_variants_complete(v: Self) {
        let all = Self::spec_variants();
        match v {
            MultiSceneNoiseCanceling::Indoor => assert(all[0] == v),
            MultiSceneNoiseCanceling::Outdoor => assert(all[1] == v),
            MultiSceneNoiseCanceling::Transport => assert(all[2] == v),
        }
    }

    fn name(self) -> (r: &'static str) {
        match self {
            MultiSceneNoiseCanceling::Indoor => "indoor",
            MultiSceneNoiseCanceling::Outdoor => "outdoor",
            MultiSceneNoiseCanceling::Transport => "transport",
        }
    }

    fn variants() -> (r: Vec<Self>) {
        let all = vec![
            MultiSceneNoiseCanceling::Indoor,
            MultiSceneNoiseCanceling::Outdoor,
            MultiSceneNoiseCanceling::Transport,
        ];
        assert(all@ =~= Self::spec_variants());
        all
    }
}

/// Largest sensitivity level of adaptive noise canceling.
pub const MAX_SENSITIVITY_LEVEL: u8 = 10;

/// Sensitivity of adaptive noise canceling, from zero to
/// [`MAX_SENSITIVITY_LEVEL`].
#[derive(Clone, Copy, Debug, PartialEq, Eq, PartialOrd, Ord, Hash)]
pub struct SensitivityLevel {
    level: u8,
}

impl SensitivityLevel {
    #[verifier::type_invariant]
    spec fn in_range(self) -> bool {
        self.level <= MAX_SENSITIVITY_LEVEL
    }

    /// The level with the given number.
    pub closed spec fn spec_new(level: u8) -> SensitivityLevel {
        SensitivityLevel { level }
    }

    /// The number of the level.
    pub closed spec fn spec_level(self) -> u8 {
        self.level
    }

    /// A level is its number and nothing else.
    pub broadcast proof fn lemma_number(level: u8)
        ensures
            (#[trigger] Self::spec_new(level)).spec_level() == level,
    {
    }

    /// Two levels with the same number are the same level.
    pub proof fn lemma_same_number(a: Self, b: Self)
        requires
            a.spec_level() == b.spec_level(),
        ensures
            a == b,
    {
    }

    /// Makes a level, if the number is not above the largest one.
    pub fn new(level: u8) -> (r: Option<SensitivityLevel>)
        ensures
            r is Some <==> level <= MAX_SENSITIVITY_LEVEL,
            r is Some ==> r->0 == Self::spec_new(level),
    {
        if level <= MAX_SENSITIVITY_LEVEL {
            Some(SensitivityLevel { level })
        } else {
            None
        }
    }

    pub fn level(&self) -> (r: u8)
        ensures
            r == self.spec_level(),
            r <= MAX_SENSITIVITY_LEVEL,
    {
        proof {
            use_type_invariant(self);
        }
        self.level
    }
}

} // verus!
