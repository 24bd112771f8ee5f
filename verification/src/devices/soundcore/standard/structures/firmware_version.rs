//! Firmware versions.

use vstd::prelude::*;

use crate::api::settings::text::{ascii_chars, ascii_to_string};
use crate::devices::soundcore::standard::packets::parsing::{take_bytes, Codec, DecodeError, Layout};

verus! {

/// ASCII code of the digit zero.
pub const ASCII_ZERO: u8 = 48;

/// ASCII code of the full stop that separates major from minor.
pub const ASCII_DOT: u8 = 46;

/// Whether a byte is an ASCII decimal digit.
pub open spec fn is_digit(byte: u8) -> bool {
    ASCII_ZERO <= byte <= ASCII_ZERO + 9
}

/// The number written as two ASCII decimal digits.
pub open spec fn two_digits(tens: u8, ones: u8) -> int {
    (tens - ASCII_ZERO) * 10 + (ones - ASCII_ZERO)
}

/// A firmware version: major and minor, each below one hundred.
///
/// On the wire it is the five ASCII characters `MM.mm`, both numbers written
/// with two decimal digits.
#[derive(Clone, Copy, Debug, PartialEq, Eq, PartialOrd, Ord, Hash)]
pub struct FirmwareVersion {
    major: u8,
    minor: u8,
}

impl FirmwareVersion {
    #[verifier::type_invariant]
    spec fn in_range(self) -> bool {
        self.major < 100 && self.minor < 100
    }

    /// The version with the given numbers.
    pub closed spec fn spec_new(major: u8, minor: u8) -> FirmwareVersion {
        FirmwareVersion { major, minor }
    }

    /// The major number.
    pub closed spec fn spec_major(self) -> u8 {
        self.major
    }

    /// The minor number.
    pub closed spec fn spec_minor(self) -> u8 {
        self.minor
    }

    /// A version is its two numbers and nothing else.
    pub broadcast proof fn lemma_numbers(major: u8, minor: u8)
        ensures
            (#[trigger] Self::spec_new(major, minor)).spec_major() == major,
            Self::spec_new(major, minor).spec_minor() == minor,
    {
    }

    /// Two versions with the same numbers are the same version.
    pub proof fn lemma_same_numbers(a: Self, b: Self)
        requires
            a.spec_major() == b.spec_major(),
            a.spec_minor() == b.spec_minor(),
        ensures
            a == b,
    {
    }

    /// Makes a version, if both numbers fit in two decimal digits.
    pub fn new(major: u8, minor: u8) -> (r: Option<FirmwareVersion>)
        ensures
            r is Some <==> major < 100 && minor < 100,
            r is Some ==> r->0 == Self::spec_new(major, minor),
    {
        if major < 100 && minor < 100 {
            Some(FirmwareVersion { major, minor })
        } else {
            None
        }
    }

    pub fn major(&self) -> (r: u8)
        ensures
            r == self.spec_major(),
            r < 100,
    {
        proof {
            use_type_invariant(self);
        }
        self.major
    }

    pub fn minor(&self) -> (r: u8)
        ensures
            r == self.spec_minor(),
            r < 100,
    {
        proof {
            use_type_invariant(self);
        }
        self.minor
    }
}

impl Layout for FirmwareVersion {
    open spec fn width() -> nat {
        5
    }

    open spec fn accepts(window: Seq<u8>) -> bool {
        &&& is_digit(window[0])
        &&& is_digit(window[1])
        &&& window[2] == ASCII_DOT
        &&& is_digit(window[3])
        &&& is_digit(window[4])
    }

    open spec fn parsed(window: Seq<u8>) -> Self {
        Self::spec_new(
            two_digits(window[0], window[1]) as u8,
            two_digits(window[3], window[4]) as u8,
        )
    }

    open spec fn canonical(window: Seq<u8>) -> bool {
        true
    }

    open spec fn wf(&self) -> bool {
        self.spec_major() < 100 && self.spec_minor() < 100
    }

    open spec fn spec_bytes(&self) -> Seq<u8> {
        seq![
            (ASCII_ZERO + self.spec_major() / 10) as u8,
            (ASCII_ZERO + self.spec_major() % 10) as u8,
            ASCII_DOT,
            (ASCII_ZERO + self.spec_minor() / 10) as u8,
            (ASCII_ZERO + self.spec_minor() % 10) as u8,
        ]
    }

    proof fn lemma_bytes_parse_back(v: Self) {
        let w = v.spec_bytes();
        assert(two_digits(w[0], w[1]) == v.spec_major());
        assert(two_digits(w[3], w[4]) == v.spec_minor());
    }

    proof fn lemma_canonical_rewrites_to_itself(window: Seq<u8>) {
        Self::lemma_numbers(
            two_digits(window[0], window[1]) as u8,
            two_digits(window[3], window[4]) as u8,
        );
        assert(Self::parsed(window).spec_bytes() =~= window);
    }

    proof fn lemma_parsed_wf(window: Seq<u8>) {
    }
}

impl Codec for FirmwareVersion {
    fn take<'a>(input: &'a [u8]) -> (r: Result<(&'a [u8], Self), DecodeError>) {
        let (rest, window) = match take_bytes(input, 5) {
            Ok(split) => split,
            Err(_) => return Err(DecodeError::Incomplete),
        };
        let major = match digits_value(window[0], window[1]) {
            Some(value) => value,
            None => return Err(DecodeError::Malformed),
        };
        if window[2] != ASCII_DOT {
            return Err(DecodeError::Malformed);
        }
        let minor = match digits_value(window[3], window[4]) {
            Some(value) => value,
            None => return Err(DecodeError::Malformed),
        };
        Ok((rest, FirmwareVersion { major, minor }))
    }

    fn bytes(&self) -> (r: Vec<u8>) {
        proof {
            use_type_invariant(self);
        }
        let mut out: Vec<u8> = Vec::new();
        out.push(ASCII_ZERO + self.major / 10);
        out.push(ASCII_ZERO + self.major % 10);
        out.push(ASCII_DOT);
        out.push(ASCII_ZERO + self.minor / 10);
        out.push(ASCII_ZERO + self.minor % 10);
        out
    }
}

impl FirmwareVersion {
    /// The version as text: the characters that it is written as.
    pub open spec fn spec_text(self) -> Seq<char> {
        ascii_chars(self.spec_bytes())
    }

    /// Exec counterpart of [`FirmwareVersion::spec_text`].
    pub fn to_string(&self) -> (r: String)
        ensures
            r@ == self.spec_text(),
    {
        let bytes = self.bytes();
        ascii_to_string(bytes.as_slice())
    }
}

/// Reads two ASCII decimal digits as a number.
fn digits_value(tens: u8, ones: u8) -> (r: Option<u8>)
    ensures
        r is Some <==> is_digit(tens) && is_digit(ones),
        r is Some ==> r->0 == two_digits(tens, ones) && r->0 < 100,
{
    if ASCII_ZERO <= tens && tens <= ASCII_ZERO + 9 && ASCII_ZERO <= ones && ones <= ASCII_ZERO
        + 9 {
        Some((tens - ASCII_ZERO) * 10 + (ones - ASCII_ZERO))
    } else {
        None
    }
}

/// Firmware versions of both earbuds, left first.
#[derive(Clone, Copy, Debug, PartialEq, Eq)]
pub struct DualFirmwareVersion {
    pub left: FirmwareVersion,
    pub right: FirmwareVersion,
}

impl Layout for DualFirmwareVersion {
    open spec fn width() -> nat {
        10
    }

    open spec fn accepts(window: Seq<u8>) -> bool {
        FirmwareVersion::accepts(window.take(5)) && FirmwareVersion::accepts(window.skip(5))
    }

    open spec fn parsed(window: Seq<u8>) -> Self {
        DualFirmwareVersion {
            left: FirmwareVersion::parsed(window.take(5)),
            right: FirmwareVersion::parsed(window.skip(5)),
        }
    }

    open spec fn canonical(window: Seq<u8>) -> bool {
        FirmwareVersion::canonical(window.take(5)) && FirmwareVersion::canonical(window.skip(5))
    }

    open spec fn wf(&self) -> bool {
        self.left.wf() && self.right.wf()
    }

    open spec fn spec_bytes(&self) -> Seq<u8> {
        self.left.spec_bytes() + self.right.spec_bytes()
    }

    proof fn lemma_bytes_parse_back(v: Self) {
        FirmwareVersion::lemma_bytes_parse_back(v.left);
        FirmwareVersion::lemma_bytes_parse_back(v.right);
        assert(v.spec_bytes().take(5) =~= v.left.spec_bytes());
        assert(v.spec_bytes().skip(5) =~= v.right.spec_bytes());
    }

    proof fn lemma_canonical_rewrites_to_itself(window: Seq<u8>) {
        FirmwareVersion::lemma_canonical_rewrites_to_itself(window.take(5));
        FirmwareVersion::lemma_canonical_rewrites_to_itself(window.skip(5));
        assert(window.take(5) + window.skip(5) =~= window);
    }

    proof fn lemma_parsed_wf(window: Seq<u8>) {
        FirmwareVersion::lemma_parsed_wf(window.take(5));
        FirmwareVersion::lemma_parsed_wf(window.skip(5));
    }
}

impl Codec for DualFirmwareVersion {
    fn take<'a>(input: &'a [u8]) -> (r: Result<(&'a [u8], Self), DecodeError>) {
        let (rest, window) = match take_bytes(input, 10) {
            Ok(split) => split,
            Err(_) => return Err(DecodeError::Incomplete),
        };
        let (window, left) = match FirmwareVersion::take(window) {
            Ok(read) => read,
            Err(_) => return Err(DecodeError::Malformed),
        };
        assert(window@.take(5) =~= window@);
        let (_, right) = match FirmwareVersion::take(window) {
            Ok(read) => read,
            Err(_) => return Err(DecodeError::Malformed),
        };
        Ok((rest, DualFirmwareVersion { left, right }))
    }

    fn bytes(&self) -> (r: Vec<u8>) {
        let mut out = self.left.bytes();
        let mut right = self.right.bytes();
        out.append(&mut right);
        out
    }
}

} // verus!
