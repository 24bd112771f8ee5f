//! Equalizer gains, for any number of channels and bands.

use vstd::prelude::*;

use crate::devices::soundcore::standard::packets::parsing::{
    array_of, lemma_array_of, lemma_array_same_view, take_bytes, Codec, DecodeError, Layout,
};

verus! {

/// The gain that a byte stands for: the byte read as a signed number in
/// two's complement.
pub open spec fn gain_of_byte(byte: u8) -> i8 {
    if byte < 128 {
        byte as i8
    } else {
        (byte - 256) as i8
    }
}

/// The byte written for a gain.
pub open spec fn byte_of_gain(gain: i8) -> u8 {
    if gain >= 0 {
        gain as u8
    } else {
        (gain + 256) as u8
    }
}

/// Exec counterpart of [`gain_of_byte`].
pub fn decode_gain(byte: u8) -> (r: i8)
    ensures
        r == gain_of_byte(byte),
{
    if byte < 128 {
        byte as i8
    } else {
        (byte as i16 - 256) as i8
    }
}

/// Exec counterpart of [`byte_of_gain`].
pub fn encode_gain(gain: i8) -> (r: u8)
    ensures
        r == byte_of_gain(gain),
{
    if gain >= 0 {
        gain as u8
    } else {
        (gain as i16 + 256) as u8
    }
}

/// Where band `band` of channel `channel` lies in a row-major grid that is
/// `bands` wide, and that quotient and remainder find both again.
pub proof fn lemma_grid_index(channel: int, band: int, channels: int, bands: int)
    requires
        0 <= channel < channels,
        0 <= band < bands,
    ensures
        0 <= channel * bands + band < channels * bands,
        (channel * bands + band) / bands == channel,
        (channel * bands + band) % bands == band,
{
    assert(0 <= channel * bands && channel * bands + bands <= channels * bands)
        by (nonlinear_arith)
        requires
            0 <= channel < channels,
            0 < bands,
    ;
    vstd::arithmetic::div_mod::lemma_fundamental_div_mod_converse_div(
        channel * bands + band,
        bands,
        channel,
        band,
    );
    vstd::arithmetic::div_mod::lemma_fundamental_div_mod_converse_mod(
        channel * bands + band,
        bands,
        channel,
        band,
    );
}

/// Every position of a row-major grid is that of one band of one channel.
pub proof fn lemma_grid_position(position: int, channels: int, bands: int)
    requires
        0 <= position < channels * bands,
        0 <= channels,
        0 <= bands,
    ensures
        0 < bands,
        0 <= position / bands < channels,
        0 <= position % bands < bands,
        position == (position / bands) * bands + position % bands,
{
    assert(0 < bands) by (nonlinear_arith)
        requires
            0 <= position < channels * bands,
            0 <= channels,
            0 <= bands,
    ;
    vstd::arithmetic::div_mod::lemma_fundamental_div_mod(position, bands);
    vstd::arithmetic::div_mod::lemma_mod_bound(position, bands);
    let q = position / bands;
    assert(bands * q == q * bands) by (nonlinear_arith);
    assert(0 <= q < channels) by (nonlinear_arith)
        requires
            0 <= position < channels * bands,
            position == q * bands + position % bands,
            0 <= position % bands < bands,
            0 < bands,
    ;
}

/// Equalizer gains of `C` channels with `B` bands each.
///
/// On the wire it is `C * B` bytes, channel after channel, each gain one
/// signed byte.
#[derive(Clone, Copy, Debug, PartialEq, Eq, Hash)]
pub struct EqualizerConfiguration<const C: usize, const B: usize> {
    pub volume_adjustments: [[i8; B]; C],
}

impl<const C: usize, const B: usize> EqualizerConfiguration<C, B> {
    /// The gain of one band of one channel.
    pub open spec fn spec_gain(self, channel: int, band: int) -> i8 {
        self.volume_adjustments@[channel]@[band]
    }

    /// The row of gains that a window holds for one channel.
    pub open spec fn parsed_channel(window: Seq<u8>, channel: int) -> Seq<i8> {
        Seq::new(B as nat, |band: int| gain_of_byte(window[channel * B + band]))
    }

    /// Two configurations with the same gains are the same.
    pub proof fn lemma_same_gains(a: Self, b: Self)
        requires
            forall|channel: int, band: int|
                0 <= channel < C && 0 <= band < B ==> a.spec_gain(channel, band) == b.spec_gain(
                    channel,
                    band,
                ),
        ensures
            a == b,
    {
        broadcast use vstd::array::group_array_axioms;

        assert forall|channel: int| 0 <= channel < C implies a.volume_adjustments@[channel]
            == b.volume_adjustments@[channel] by {
            assert forall|band: int| 0 <= band < B implies a.volume_adjustments@[channel]@[band]
                == b.volume_adjustments@[channel]@[band] by {
                assert(a.spec_gain(channel, band) == b.spec_gain(channel, band));
            }
            assert(a.volume_adjustments@[channel]@ =~= b.volume_adjustments@[channel]@);
            lemma_array_same_view(a.volume_adjustments@[channel], b.volume_adjustments@[channel]);
        }
        assert(a.volume_adjustments@ =~= b.volume_adjustments@);
        lemma_array_same_view(a.volume_adjustments, b.volume_adjustments);
    }

    /// The gains of what a window parses to are those that its bytes stand
    /// for, in row-major order.
    pub proof fn lemma_parsed_gain(window: Seq<u8>, channel: int, band: int)
        requires
            0 <= channel < C,
            0 <= band < B,
        ensures
            Self::parsed(window).spec_gain(channel, band) == gain_of_byte(
                window[channel * B + band],
            ),
    {
        broadcast use vstd::array::group_array_axioms;

        let rows = Seq::new(
            C as nat,
            |channel: int| array_of::<i8, B>(Self::parsed_channel(window, channel)),
        );
        lemma_array_of::<[i8; B], C>(rows);
        lemma_array_of::<i8, B>(Self::parsed_channel(window, channel));
    }

    /// The configuration in which every channel has the given gains.
    pub open spec fn spec_uniform(gains: Seq<i8>) -> Self {
        EqualizerConfiguration {
            volume_adjustments: array_of(
                Seq::new(C as nat, |channel: int| array_of::<i8, B>(gains)),
            ),
        }
    }

    /// Every channel of a uniform configuration has the gains it was made
    /// from.
    pub proof fn lemma_uniform_gain(gains: Seq<i8>, channel: int, band: int)
        requires
            gains.len() == B,
            0 <= channel < C,
            0 <= band < B,
        ensures
            Self::spec_uniform(gains).spec_gain(channel, band) == gains[band],
    {
        broadcast use vstd::array::group_array_axioms;

        lemma_array_of::<[i8; B], C>(Seq::new(C as nat, |channel: int| array_of::<i8, B>(gains)));
        lemma_array_of::<i8, B>(gains);
    }

    /// Exec counterpart of [`EqualizerConfiguration::spec_uniform`].
    pub fn uniform(gains: [i8; B]) -> (r: Self)
        ensures
            r == Self::spec_uniform(gains@),
    {
        broadcast use vstd::array::group_array_axioms;

        let made = EqualizerConfiguration { volume_adjustments: [gains; C] };
        proof {
            let model = Self::spec_uniform(gains@);
            assert forall|channel: int, band: int|
                0 <= channel < C && 0 <= band < B implies made.spec_gain(channel, band)
                == model.spec_gain(channel, band) by {
                Self::lemma_uniform_gain(gains@, channel, band);
            }
            Self::lemma_same_gains(made, model);
        }
        made
    }

    /// All gains zero.
    pub fn flat() -> (r: Self)
        ensures
            forall|channel: int, band: int|
                0 <= channel < C && 0 <= band < B ==> r.spec_gain(channel, band) == 0,
    {
        broadcast use vstd::array::group_array_axioms;

        EqualizerConfiguration { volume_adjustments: [[0i8; B]; C] }
    }

    /// The gain of one band of one channel, if there is such a band.
    pub fn gain(&self, channel: usize, band: usize) -> (r: Option<i8>)
        ensures
            r is Some <==> channel < C && band < B,
            r is Some ==> r->0 == self.spec_gain(channel as int, band as int),
    {
        broadcast use vstd::array::group_array_axioms;

        if channel < C && band < B {
            Some(self.volume_adjustments[channel][band])
        } else {
            None
        }
    }
}

impl<const C: usize, const B: usize> Layout for EqualizerConfiguration<C, B> {
    open spec fn width() -> nat {
        (C * B) as nat
    }

    open spec fn accepts(window: Seq<u8>) -> bool {
        true
    }

    open spec fn parsed(window: Seq<u8>) -> Self {
        EqualizerConfiguration {
            volume_adjustments: array_of(
                Seq::new(
                    C as nat,
                    |channel: int| array_of::<i8, B>(Self::parsed_channel(window, channel)),
                ),
            ),
        }
    }

    open spec fn canonical(window: Seq<u8>) -> bool {
        true
    }

    open spec fn wf(&self) -> bool {
        true
    }

    open spec fn spec_bytes(&self) -> Seq<u8> {
        Seq::new(
            (C * B) as nat,
            |position: int| byte_of_gain(self.spec_gain(position / (B as int), position % (B as int))),
        )
    }

    proof fn lemma_bytes_parse_back(v: Self) {
        let window = v.spec_bytes();
        assert forall|channel: int, band: int| 0 <= channel < C && 0 <= band < B implies Self::parsed(
            window,
        ).spec_gain(channel, band) == v.spec_gain(channel, band) by {
            Self::lemma_parsed_gain(window, channel, band);
            lemma_grid_index(channel, band, C as int, B as int);
        }
        Self::lemma_same_gains(Self::parsed(window), v);
    }

    proof fn lemma_canonical_rewrites_to_itself(window: Seq<u8>) {
        let rewritten = Self::parsed(window).spec_bytes();
        assert forall|position: int| 0 <= position < window.len() implies rewritten[position]
            == window[position] by {
            lemma_grid_position(position, C as int, B as int);
            Self::lemma_parsed_gain(window, position / (B as int), position % (B as int));
        }
        assert(rewritten =~= window);
    }

    proof fn lemma_parsed_wf(window: Seq<u8>) {
    }
}

impl<const C: usize, const B: usize> Codec for EqualizerConfiguration<C, B> {
    fn take<'a>(input: &'a [u8]) -> (r: Result<(&'a [u8], Self), DecodeError>) {
        broadcast use vstd::array::group_array_axioms;

        let total = match C.checked_mul(B) {
            Some(total) => total,
            None => {
                assert(input@.len() <= usize::MAX) by {
                    vstd::slice::axiom_spec_len(input);
                }
                return Err(DecodeError::Incomplete);
            },
        };
        let (rest, window) = match take_bytes(input, total) {
            Ok(split) => split,
            Err(_) => return Err(DecodeError::Incomplete),
        };
        let mut grid: [[i8; B]; C] = [[0i8; B]; C];
        let mut offset: usize = 0;
        let mut channel: usize = 0;
        while channel < C
            invariant
                channel <= C,
                total == C * B,
                window@.len() == total,
                offset == channel * B,
                forall|c: int, b: int|
                    0 <= c < channel && 0 <= b < B ==> #[trigger] grid@[c]@[b] == gain_of_byte(
                        window@[c * B + b],
                    ),
            decreases C - channel,
        {
            let mut row: [i8; B] = [0i8; B];
            let mut band: usize = 0;
            while band < B
                invariant
                    band <= B,
                    channel < C,
                    total == C * B,
                    window@.len() == total,
                    offset == channel * B + band,
                    forall|b: int|
                        0 <= b < band ==> #[trigger] row@[b] == gain_of_byte(
                            window@[channel * B + b],
                        ),
                decreases B - band,
            {
                proof {
                    lemma_grid_index(channel as int, band as int, C as int, B as int);
                }
                row[band] = decode_gain(window[offset]);
                offset = offset + 1;
                band = band + 1;
            }
            grid[channel] = row;
            assert((channel + 1) * B == channel * B + B) by (nonlinear_arith);
            channel = channel + 1;
        }
        let value = EqualizerConfiguration { volume_adjustments: grid };
        proof {
            let model = Self::parsed(window@);
            assert forall|c: int, b: int| 0 <= c < C && 0 <= b < B implies value.spec_gain(c, b)
                == model.spec_gain(c, b) by {
                Self::lemma_parsed_gain(window@, c, b);
            }
            Self::lemma_same_gains(value, model);
        }
        Ok((rest, value))
    }

    fn bytes(&self) -> (r: Vec<u8>) {
        broadcast use vstd::array::group_array_axioms;

        let mut out: Vec<u8> = Vec::new();
        let mut channel: usize = 0;
        while channel < C
            invariant
                channel <= C,
                out@.len() == channel * B,
                forall|c: int, b: int|
                    0 <= c < channel && 0 <= b < B ==> #[trigger] out@[c * B + b] == byte_of_gain(
                        self.spec_gain(c, b),
                    ),
            decreases C - channel,
        {
            let row = &self.volume_adjustments[channel];
            let mut band: usize = 0;
            while band < B
                invariant
                    band <= B,
                    channel < C,
                    *row == self.volume_adjustments@[channel as int],
                    out@.len() == channel * B + band,
                    forall|c: int, b: int|
                        0 <= c < channel && 0 <= b < B ==> #[trigger] out@[c * B + b]
                            == byte_of_gain(self.spec_gain(c, b)),
                    forall|b: int|
                        0 <= b < band ==> #[trigger] out@[channel * B + b] == byte_of_gain(
                            self.spec_gain(channel as int, b),
                        ),
                decreases B - band,
            {
                let ghost before = out@;
                out.push(encode_gain(row[band]));
                proof {
                    assert forall|c: int, b: int| 0 <= c < channel && 0 <= b < B implies #[trigger] out@[c
                        * B + b] == byte_of_gain(self.spec_gain(c, b)) by {
                        lemma_grid_index(c, b, channel as int, B as int);
                        assert(out@[c * B + b] == before[c * B + b]);
                    }
                }
                band = band + 1;
            }
            proof {
                assert((channel + 1) * B == channel * B + B) by (nonlinear_arith);
                assert forall|c: int, b: int| 0 <= c < channel + 1 && 0 <= b < B implies #[trigger] out@[c
                    * B + b] == byte_of_gain(self.spec_gain(c, b)) by {
                    if c == channel {
                    }
                }
            }
            channel = channel + 1;
        }
        proof {
            let model = self.spec_bytes();
            assert(out@.len() == model.len());
            assert forall|position: int| 0 <= position < out@.len() implies out@[position]
                == model[position] by {
                lemma_grid_position(position, C as int, B as int);
                let c = position / (B as int);
                let b = position % (B as int);
                assert(out@[c * B + b] == byte_of_gain(self.spec_gain(c, b)));
            }
            assert(out@ =~= model);
        }
        out
    }
}

} // verus!
