//! Serial numbers.

use vstd::prelude::*;

use crate::api::settings::text::{ascii_chars, ascii_to_string};
use crate::devices::soundcore::standard::packets::parsing::{
    array_of, lemma_array_of, lemma_array_same_view, take_bytes, Codec, DecodeError, Layout,
};

verus! {

/// Number of characters in a serial number.
pub const SERIAL_NUMBER_LENGTH: usize = 16;

/// Whether every byte is an ASCII character.
pub open spec fn all_ascii(bytes: Seq<u8>) -> bool {
    forall|i: int| 0 <= i < bytes.len() ==> bytes[i] < 128
}

/// A device serial number: sixteen ASCII characters.
#[derive(Clone, Copy, Debug, PartialEq, Eq, Hash)]
pub struct SerialNumber {
    characters: [u8; 16],
}

impl SerialNumber {
    #[verifier::type_invariant]
    spec fn is_ascii(self) -> bool {
        all_ascii(self.characters@)
    }

    /// The serial number with the given characters.
    pub closed spec fn spec_new(characters: Seq<u8>) -> SerialNumber {
        SerialNumber { characters: array_of(characters) }
    }

    /// The sixteen characters.
    pub closed spec fn spec_characters(self) -> Seq<u8> {
        self.characters@
    }

    /// A serial number always has sixteen characters.
    pub broadcast proof fn lemma_length(self)
        ensures
            #[trigger] self.spec_characters().len() == 16,
    {
        broadcast use vstd::array::group_array_axioms;

    }

    /// A serial number is its characters and nothing else.
    pub proof fn lemma_characters(characters: Seq<u8>)
        requires
            characters.len() == 16,
        ensures
            Self::spec_new(characters).spec_characters() == characters,
    {
        lemma_array_of::<u8, 16>(characters);
    }

    /// Two serial numbers with the same characters are the same.
    pub proof fn lemma_same_characters(a: Self, b: Self)
        requires
            a.spec_characters() == b.spec_characters(),
        ensures
            a == b,
    {
        lemma_array_same_view(a.characters, b.characters);
    }

    /// Makes a serial number, if every character is ASCII.
    pub fn new(characters: [u8; 16]) -> (r: Option<SerialNumber>)
        ensures
            r is Some <==> all_ascii(characters@),
            r is Some ==> r->0 == Self::spec_new(characters@),
    {
        broadcast use vstd::array::group_array_axioms;

        let mut i: usize = 0;
        while i < 16
            invariant
                i <= 16,
                forall|j: int| 0 <= j < i ==> characters@[j] < 128,
            decreases 16 - i,
        {
            if characters[i] >= 128 {
                return None;
            }
            i = i + 1;
        }
        let made = SerialNumber { characters };
        proof {
            lemma_array_of::<u8, 16>(characters@);
            lemma_array_same_view(characters, array_of::<u8, 16>(characters@));
        }
        Some(made)
    }

    pub fn characters(&self) -> (r: [u8; 16])
        ensures
            r@ == self.spec_characters(),
            all_ascii(r@),
    {
        proof {
            use_type_invariant(self);
        }
        self.characters
    }
}

impl SerialNumber {
    /// The serial number as text.
    pub open spec fn spec_text(self) -> Seq<char> {
        ascii_chars(self.spec_characters())
    }

    /// Exec counterpart of [`SerialNumber::spec_text`].
    pub fn to_string(&self) -> (r: String)
        ensures
            r@ == self.spec_text(),
    {
        let characters = self.characters();
        ascii_to_string(characters.as_slice())
    }
}

impl Layout for SerialNumber {
    open spec fn width() -> nat {
        16
    }

    open spec fn accepts(window: Seq<u8>) -> bool {
        all_ascii(window)
    }

    open spec fn parsed(window: Seq<u8>) -> Self {
        Self::spec_new(window)
    }

    open spec fn canonical(window: Seq<u8>) -> bool {
        true
    }

    open spec fn wf(&self) -> bool {
        all_ascii(self.spec_characters())
    }

    open spec fn spec_bytes(&self) -> Seq<u8> {
        self.spec_characters()
    }

    proof fn lemma_bytes_parse_back(v: Self) {
        v.lemma_length();
        Self::lemma_characters(v.spec_characters());
        Self::lemma_same_characters(Self::spec_new(v.spec_characters()), v);
    }

    proof fn lemma_canonical_rewrites_to_itself(window: Seq<u8>) {
        Self::lemma_characters(window);
    }

    proof fn lemma_parsed_wf(window: Seq<u8>) {
        Self::lemma_characters(window);
    }
}

impl Codec for SerialNumber {
    fn take<'a>(input: &'a [u8]) -> (r: Result<(&'a [u8], Self), DecodeError>) {
        broadcast use vstd::array::group_array_axioms;

        let (rest, window) = match take_bytes(input, 16) {
            Ok(split) => split,
            Err(_) => return Err(DecodeError::Incomplete),
        };
        let mut characters: [u8; 16] = [0u8; 16];
        let mut i: usize = 0;
        while i < 16
            invariant
                i <= 16,
                input@.len() >= 16,
                window@ == input@.take(16),
                forall|j: int| 0 <= j < i ==> characters@[j] == window@[j] && window@[j] < 128,
            decreases 16 - i,
        {
            let byte = window[i];
            if byte >= 128 {
                assert(!all_ascii(window@));
                return Err(DecodeError::Malformed);
            }
            characters[i] = byte;
            i = i + 1;
        }
        assert(characters@ =~= window@);
        let serial_number = match SerialNumber::new(characters) {
            Some(serial_number) => serial_number,
            None => return Err(DecodeError::Malformed),
        };
        Ok((rest, serial_number))
    }

    fn bytes(&self) -> (r: Vec<u8>) {
        broadcast use vstd::array::group_array_axioms;

        proof {
            use_type_invariant(self);
        }
        let mut out: Vec<u8> = Vec::new();
        let mut i: usize = 0;
        while i < 16
            invariant
                i <= 16,
                out@.len() == i,
                forall|j: int| 0 <= j < i ==> out@[j] == self.characters@[j],
            decreases 16 - i,
        {
            out.push(self.characters[i]);
            i = i + 1;
        }
        assert(out@ =~= self.characters@);
        out
    }
}

} // verus!
