//! The link between the two earbuds.

use vstd::prelude::*;

use crate::api::settings::names::NamedVariants;
use crate::devices::soundcore::standard::packets::parsing::{
    bool_of_byte, byte_of_bool, decode_bool, encode_bool, take_bytes, ByteEnum, Codec, DecodeError,
    Layout,
};

verus! {

/// Which earbud holds the connection to the phone.
#[derive(Clone, Copy, Debug, PartialEq, Eq, Hash, Structural)]
pub enum HostDevice {
    Left,
    Right,
}

impl ByteEnum for HostDevice {
    open spec fn spec_byte(self) -> u8 {
        match self {
            HostDevice::Left => 0,
            HostDevice::Right => 1,
        }
    }

    open spec fn spec_from_byte(byte: u8) -> Option<Self> {
        if byte == 0 {
            Some(HostDevice::Left)
        } else if byte == 1 {
            Some(HostDevice::Right)
        } else {
            None
        }
    }

    proof fn lemma_byte_identifies(v: Self, byte: u8) {
    }

    fn byte(self) -> (r: u8) {
        match self {
            HostDevice::Left => 0,
            HostDevice::Right => 1,
        }
    }

    fn from_byte(byte: u8) -> (r: Option<Self>) {
        if byte == 0 {
            Some(HostDevice::Left)
        } else if byte == 1 {
            Some(HostDevice::Right)
        } else {
            None
        }
    }
}

impl NamedVariants for HostDevice {
    open spec fn spec_name(self) -> Seq<char> {
        match self {
            HostDevice::Left => "left"@,
            HostDevice::Right => "right"@,
        }
    }

    open spec fn spec_variants() -> Seq<Self> {
        seq![
            HostDevice::Left,
            HostDevice::Right,
        ]
    }

    proof fn lemma_names_identify(a: Self, b: Self) {
        reveal_strlit("left");
        reveal_strlit("right");
        if a.spec_name() == b.spec_name() {
            let x = a.spec_name();
            let y = b.spec_name();
            assert(x.len() == y.len());
        }
    }

    proof fn lemma_variants_complete(v: Self) {
        let all = Self::spec_variants();
        match v {
            HostDevice::Left => assert(all[0] == v),
            HostDevice::Right => assert(all[1] == v),
        }
    }

    fn name(self) -> (r: &'static str) {
        match self {
            HostDevice::Left => "left",
            HostDevice::Right => "right",
        }
    }

    fn variants() -> (r: Vec<Self>) {
        let all = vec![
            HostDevice::Left,
            HostDevice::Right,
        ];
        assert(all@ =~= Self::spec_variants());
        all
    }
}

/// True-wireless link status: which side is the host, and whether both sides
/// are connected to each other.
#[derive(Clone, Copy, Debug, PartialEq, Eq, Hash, Structural)]
pub struct TwsStatus {
    pub host_device: HostDevice,
    pub is_connected: bool,
}

impl Layout for TwsStatus {
    open spec fn width() -> nat {
        2
    }

    open spec fn accepts(window: Seq<u8>) -> bool {
        HostDevice::spec_from_byte(window[0]) is Some
    }

    open spec fn parsed(window: Seq<u8>) -> Self {
        TwsStatus {
            host_device: HostDevice::spec_from_byte(window[0])->0,
            is_connected: bool_of_byte(window[1]),
        }
    }

    open spec fn canonical(window: Seq<u8>) -> bool {
        window[1] <= 1
    }

    open spec fn wf(&self) -> bool {
        true
    }

    open spec fn spec_bytes(&self) -> Seq<u8> {
        seq![self.host_device.spec_byte(), byte_of_bool(self.is_connected)]
    }

    proof fn lemma_bytes_parse_back(v: Self) {
    }

    proof fn lemma_canonical_rewrites_to_itself(window: Seq<u8>) {
        assert(Self::parsed(window).spec_bytes() =~= window);
    }

    proof fn lemma_parsed_wf(window: Seq<u8>) {
    }
}

impl Codec for TwsStatus {
    fn take<'a>(input: &'a [u8]) -> (r: Result<(&'a [u8], Self), DecodeError>) {
        let (rest, window) = match take_bytes(input, 2) {
            Ok(split) => split,
            Err(_) => return Err(DecodeError::Incomplete),
        };
        let host_device = match HostDevice::from_byte(window[0]) {
            Some(host_device) => host_device,
            None => return Err(DecodeError::Malformed),
        };
        let is_connected = decode_bool(window[1]);
        Ok((rest, TwsStatus { host_device, is_connected }))
    }

    fn bytes(&self) -> (r: Vec<u8>) {
        let mut out: Vec<u8> = Vec::new();
        out.push(self.host_device.byte());
        out.push(encode_bool(self.is_connected));
        out
    }
}

} // verus!
