//! Gas species and the state of a closed parcel of gas.
use vstd::prelude::*;
use crate::binary64::{ge, is_finite, lt, ZERO};

verus! {

/// How many species the engine knows.
pub const SPECIES_COUNT: usize = 12;

/// The closed set of gas species.
#[derive(Clone, Copy, Debug, PartialEq, Eq, Structural)]
pub enum Gas {
    O2,
    N2,
    CO2,
    /// Plasma.
    Pl,
    /// Tritium.
    H2,
    /// Water vapour.
    H2O,
    N2O,
    /// Nitryl.
    NO2,
    BZ,
    /// Stimulum.
    ST,
    /// Hyper-noblium.
    HNb,
    /// Pluoxium.
    PlOx,
}

impl Gas {
    /// The slot of this species in a gas vector.
    pub open spec fn slot(self) -> int {
        match self {
            Gas::O2 => 0,
            Gas::N2 => 1,
            Gas::CO2 => 2,
            Gas::Pl => 3,
            Gas::H2 => 4,
            Gas::H2O => 5,
            Gas::N2O => 6,
            Gas::NO2 => 7,
            Gas::BZ => 8,
            Gas::ST => 9,
            Gas::HNb => 10,
            Gas::PlOx => 11,
        }
    }

    pub fn index(self) -> (r: usize)
        ensures
            r == self.slot(),
            r < SPECIES_COUNT,
    {
        match self {
            Gas::O2 => 0,
            Gas::N2 => 1,
            Gas::CO2 => 2,
            Gas::Pl => 3,
            Gas::H2 => 4,
            Gas::H2O => 5,
            Gas::N2O => 6,
            Gas::NO2 => 7,
            Gas::BZ => 8,
            Gas::ST => 9,
            Gas::HNb => 10,
            Gas::PlOx => 11,
        }
    }
}

/// A parcel of gas: moles of each species, volume in litres and temperature
/// in kelvin, each quantity held as the bit pattern of a binary64 value.
/// Two mixtures are equal exactly when every pattern is equal.
#[derive(Clone, Copy, Debug)]
pub struct GasMixture {
    pub gases: [u64; 12],
    pub volume: u64,
    pub temperature: u64,
}

impl GasMixture {
    /// Moles of one species.
    pub open spec fn moles(self, g: Gas) -> u64 {
        self.gases@[g.slot()]
    }

    /// Every quantity finite, no species below zero, a temperature of at
    /// least zero and a volume above zero.
    pub open spec fn well_formed(self) -> bool {
        &&& forall|i: int| 0 <= i < SPECIES_COUNT ==> is_finite(#[trigger] self.gases@[i]) && ge(self.gases@[i], ZERO)
        &&& is_finite(self.temperature) && ge(self.temperature, ZERO)
        &&& is_finite(self.volume) && lt(ZERO, self.volume)
    }

    pub fn amount(&self, g: Gas) -> (r: u64)
        ensures
            r == self.moles(g),
    {
        self.gases[g.index()]
    }
}

/// Bit-for-bit equality of two mixtures.
impl PartialEq for GasMixture {
    fn eq(&self, o: &GasMixture) -> (r: bool) {
        if self.volume != o.volume || self.temperature != o.temperature {
            return false;
        }
        let mut i: usize = 0;
        while i < SPECIES_COUNT
            invariant
                i <= SPECIES_COUNT,
                forall|j: int| 0 <= j < i ==> self.gases@[j] == o.gases@[j],
            decreases SPECIES_COUNT - i,
        {
            if self.gases[i] != o.gases[i] {
                return false;
            }
            i += 1;
        }
        assert(self.gases =~= o.gases);
        true
    }
}

impl vstd::std_specs::cmp::PartialEqSpecImpl for GasMixture {
    open spec fn obeys_eq_spec() -> bool {
        true
    }

    open spec fn eq_spec(&self, o: &GasMixture) -> bool {
        *self == *o
    }
}

impl Eq for GasMixture {
}

} // verus!
