//! The shape of an equalizer.

use vstd::prelude::*;

verus! {

/// The shape of an equalizer: the centre frequency of each band, and the
/// bounds of a gain. Gains are whole numbers; `fraction_digits` says how many
/// of their decimal digits stand behind the point.
#[derive(Clone, Debug, PartialEq, Eq)]
pub struct Equalizer {
    pub band_hz: Vec<u16>,
    pub fraction_digits: i16,
    pub min: i16,
    pub max: i16,
}

impl Equalizer {
    /// The bounds admit at least one gain.
    pub open spec fn wf(self) -> bool {
        self.min <= self.max
    }

    /// Whether a list of gains has one gain per band, each within bounds.
    pub open spec fn spec_fits(self, gains: Seq<i16>) -> bool {
        &&& gains.len() == self.band_hz@.len()
        &&& forall|i: int| 0 <= i < gains.len() ==> self.min <= #[trigger] gains[i] <= self.max
    }

    /// Exec counterpart of [`Equalizer::spec_fits`].
    pub fn fits(&self, gains: &Vec<i16>) -> (r: bool)
        ensures
            r == self.spec_fits(gains@),
    {
        if gains.len() != self.band_hz.len() {
            return false;
        }
        let mut i: usize = 0;
        while i < gains.len()
            invariant
                i <= gains@.len(),
                gains@.len() == self.band_hz@.len(),
                forall|j: int| 0 <= j < i ==> self.min <= #[trigger] gains@[j] <= self.max,
            decreases gains@.len() - i,
        {
            if gains[i] < self.min || gains[i] > self.max {
                return false;
            }
            i = i + 1;
        }
        true
    }
}

} // verus!
