//! Battery levels and charging flags.

use vstd::prelude::*;

use crate::devices::soundcore::standard::packets::parsing::{
    bool_of_byte, byte_of_bool, decode_bool, encode_bool, take_bytes, Codec, DecodeError, Layout,
};

verus! {

/// Charge state of one earbud.
#[derive(Clone, Copy, Debug, PartialEq, Eq, Structural)]
pub struct SingleBattery {
    pub is_charging: bool,
    pub level: u8,
}

/// Charge state of both earbuds.
///
/// On the wire: left level, right level, left charging flag, right charging
/// flag, one byte each.
#[derive(Clone, Copy, Debug, PartialEq, Eq, Structural)]
pub struct DualBattery {
    pub left: SingleBattery,
    pub right: SingleBattery,
}

impl Layout for DualBattery {
    open spec fn width() -> nat {
        4
    }

    open spec fn accepts(window: Seq<u8>) -> bool {
        true
    }

    open spec fn parsed(window: Seq<u8>) -> Self {
        DualBattery {
            left: SingleBattery { is_charging: bool_of_byte(window[2]), level: window[0] },
            right: SingleBattery { is_charging: bool_of_byte(window[3]), level: window[1] },
        }
    }

    open spec fn canonical(window: Seq<u8>) -> bool {
        window[2] <= 1 && window[3] <= 1
    }

    open spec fn wf(&self) -> bool {
        true
    }

    open spec fn spec_bytes(&self) -> Seq<u8> {
        seq![
            self.left.level,
            self.right.level,
            byte_of_bool(self.left.is_charging),
            byte_of_bool(self.right.is_charging),
        ]
    }

    proof fn lemma_bytes_parse_back(v: Self) {
    }

    proof fn lemma_canonical_rewrites_to_itself(window: Seq<u8>) {
        assert(Self::parsed(window).spec_bytes() =~= window);
    }

    proof fn lemma_parsed_wf(window: Seq<u8>) {
    }
}

impl Codec for DualBattery {
    fn take<'a>(input: &'a [u8]) -> (r: Result<(&'a [u8], Self), DecodeError>) {
        let (rest, window) = match take_bytes(input, 4) {
            Ok(split) => split,
            Err(_) => return Err(DecodeError::Incomplete),
        };
        let left = SingleBattery { is_charging: decode_bool(window[2]), level: window[0] };
        let right = SingleBattery { is_charging: decode_bool(window[3]), level: window[1] };
        Ok((rest, DualBattery { left, right }))
    }

    fn bytes(&self) -> (r: Vec<u8>) {
        let mut out: Vec<u8> = Vec::new();
        out.push(self.left.level);
        out.push(self.right.level);
        out.push(encode_bool(self.left.is_charging));
        out.push(encode_bool(self.right.is_charging));
        out
    }
}

} // verus!
