//! The ambient sound modes that a button press cycles through.

use vstd::prelude::*;

use crate::devices::soundcore::standard::packets::parsing::{take_u8, Codec, DecodeError, Layout};

verus! {

/// Which ambient sound modes the earbud button cycles through.
///
/// On the wire it is one byte: noise canceling counts one, transparency two,
/// normal four. Higher bits are ignored when read and written as zero.
#[derive(Clone, Copy, Debug, PartialEq, Eq, Hash, Structural)]
pub struct AmbientSoundModeCycle {
    pub normal_mode: bool,
    pub transparency_mode: bool,
    pub noise_canceling_mode: bool,
}

impl AmbientSoundModeCycle {
    /// The byte that stands for the cycle.
    pub open spec fn spec_byte(self) -> u8 {
        ((if self.noise_canceling_mode {
            1int
        } else {
            0int
        }) + (if self.transparency_mode {
            2int
        } else {
            0int
        }) + (if self.normal_mode {
            4int
        } else {
            0int
        })) as u8
    }

    /// The cycle that a byte stands for.
    pub open spec fn spec_from_byte(byte: u8) -> AmbientSoundModeCycle {
        AmbientSoundModeCycle {
            noise_canceling_mode: byte % 2 == 1,
            transparency_mode: (byte / 2) % 2 == 1,
            normal_mode: (byte / 4) % 2 == 1,
        }
    }

    pub fn byte(&self) -> (r: u8)
        ensures
            r == self.spec_byte(),
    {
        let mut out: u8 = 0;
        if self.noise_canceling_mode {
            out = out + 1;
        }
        if self.transparency_mode {
            out = out + 2;
        }
        if self.normal_mode {
            out = out + 4;
        }
        out
    }

    pub fn from_byte(byte: u8) -> (r: AmbientSoundModeCycle)
        ensures
            r == Self::spec_from_byte(byte),
    {
        AmbientSoundModeCycle {
            noise_canceling_mode: byte % 2 == 1,
            transparency_mode: (byte / 2) % 2 == 1,
            normal_mode: (byte / 4) % 2 == 1,
        }
    }
}

impl Layout for AmbientSoundModeCycle {
    open spec fn width() -> nat {
        1
    }

    open spec fn accepts(window: Seq<u8>) -> bool {
        true
    }

    open spec fn parsed(window: Seq<u8>) -> Self {
        Self::spec_from_byte(window[0])
    }

    open spec fn canonical(window: Seq<u8>) -> bool {
        window[0] < 8
    }

    open spec fn wf(&self) -> bool {
        true
    }

    open spec fn spec_bytes(&self) -> Seq<u8> {
        seq![self.spec_byte()]
    }

    proof fn lemma_bytes_parse_back(v: Self) {
    }

    proof fn lemma_canonical_rewrites_to_itself(window: Seq<u8>) {
        assert(Self::parsed(window).spec_bytes() =~= window);
    }

    proof fn lemma_parsed_wf(window: Seq<u8>) {
    }
}

impl Codec for AmbientSoundModeCycle {
    fn take<'a>(input: &'a [u8]) -> (r: Result<(&'a [u8], Self), DecodeError>) {
        match take_u8(input) {
            Ok((rest, byte)) => Ok((rest, AmbientSoundModeCycle::from_byte(byte))),
            Err(_) => Err(DecodeError::Incomplete),
        }
    }

    fn bytes(&self) -> (r: Vec<u8>) {
        let mut out: Vec<u8> = Vec::new();
        out.push(self.byte());
        out
    }
}

} // verus!
