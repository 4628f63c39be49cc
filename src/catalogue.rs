//! The reactions, their activation gates and the order in which a tick
//! visits them.
use vstd::prelude::*;
use crate::binary64::{ge, greater_or_equal, NEG_INFINITY};
use crate::gas::{Gas, GasMixture};

verus! {

/// Bit pattern of 5.0.
pub const FIVE: u64 = 0x4014_0000_0000_0000;

/// Bit pattern of 10.0.
pub const TEN: u64 = 0x4024_0000_0000_0000;

/// Bit pattern of 20.0.
pub const TWENTY: u64 = 0x4034_0000_0000_0000;

/// Bit pattern of 30.0.
pub const THIRTY: u64 = 0x403e_0000_0000_0000;

/// Bit pattern of 373.15, one hundred degrees Celsius in kelvin.
pub const BOILING_POINT: u64 = 0x4077_5266_6666_6666;

/// Bit pattern of 5.0e6.
pub const FIVE_MILLION: u64 = 0x4153_12d0_0000_0000;

/// How many reactions a tick visits.
pub const REACTION_COUNT: usize = 8;

/// The reactions, in the order in which a tick visits them.
#[derive(Clone, Copy, Debug, PartialEq, Eq, Structural)]
pub enum Reaction {
    N2oDecomposition,
    TritiumFire,
    PlasmaFire,
    Fusion,
    NitrylFormation,
    BzSynthesis,
    StimulumSynthesis,
    HyperNobliumSynthesis,
}

/// The tuning values that the gates read, each as a binary64 bit pattern.
#[derive(Clone, Copy, Debug, PartialEq, Eq, Structural)]
pub struct Thresholds {
    /// Smallest amount of a reactant that lets the fires and N2O
    /// decomposition run.
    pub minimum_mole_count: u64,
    pub n2o_decomposition_min_temperature: u64,
    pub plasma_minimum_burn_temperature: u64,
    /// Tritium that one fusion step uses, and so needs.
    pub fusion_tritium_moles_used: u64,
    /// Plasma and carbon dioxide that fusion needs.
    pub fusion_mole_threshold: u64,
    pub fusion_temperature_threshold: u64,
    /// Sixty times the lowest temperature at which fire exists.
    pub nitryl_min_temperature: u64,
    /// Half the stimulum heat scale.
    pub stimulum_min_temperature: u64,
}

/// What a reaction needs before it runs: at least so many moles of some
/// species, and at least a temperature.
#[derive(Clone, Debug)]
pub struct Gate {
    pub reaction: Reaction,
    pub min_moles: Vec<(Gas, u64)>,
    pub min_temperature: u64,
}

impl Gate {
    /// The activation predicate.
    pub open spec fn active(self, m: GasMixture) -> bool {
        &&& forall|i: int|
            0 <= i < self.min_moles@.len() ==> ge(
                m.moles(#[trigger] self.min_moles@[i].0),
                self.min_moles@[i].1,
            )
        &&& ge(m.temperature, self.min_temperature)
    }

    pub fn is_active(&self, m: &GasMixture) -> (r: bool)
        ensures
            r == self.active(*m),
    {
        let mut i: usize = 0;
        while i < self.min_moles.len()
            invariant
                i <= self.min_moles@.len(),
                forall|j: int|
                    0 <= j < i ==> ge(
                        m.moles(#[trigger] self.min_moles@[j].0),
                        self.min_moles@[j].1,
                    ),
            decreases self.min_moles@.len() - i,
        {
            let (g, least) = self.min_moles[i];
            if !greater_or_equal(m.amount(g), least) {
                return false;
            }
            i += 1;
        }
        greater_or_equal(m.temperature, self.min_temperature)
    }
}

impl Reaction {
    /// Position of the reaction in a tick.
    pub open spec fn rank(self) -> int {
        match self {
            Reaction::N2oDecomposition => 0,
            Reaction::TritiumFire => 1,
            Reaction::PlasmaFire => 2,
            Reaction::Fusion => 3,
            Reaction::NitrylFormation => 4,
            Reaction::BzSynthesis => 5,
            Reaction::StimulumSynthesis => 6,
            Reaction::HyperNobliumSynthesis => 7,
        }
    }

    /// The species minimums of this reaction's gate.
    pub open spec fn needs(self, th: Thresholds) -> Seq<(Gas, u64)> {
        match self {
            Reaction::N2oDecomposition => seq![(Gas::N2O, th.minimum_mole_count)],
            Reaction::TritiumFire => seq![
                (Gas::H2, th.minimum_mole_count),
                (Gas::O2, th.minimum_mole_count),
            ],
            Reaction::PlasmaFire => seq![
                (Gas::Pl, th.minimum_mole_count),
                (Gas::O2, th.minimum_mole_count),
            ],
            Reaction::Fusion => seq![
                (Gas::H2, th.fusion_tritium_moles_used),
                (Gas::Pl, th.fusion_mole_threshold),
                (Gas::CO2, th.fusion_mole_threshold),
            ],
            Reaction::NitrylFormation => seq![
                (Gas::N2, TWENTY),
                (Gas::O2, TWENTY),
                (Gas::PlOx, FIVE),
            ],
            Reaction::BzSynthesis => seq![(Gas::N2O, TEN), (Gas::Pl, TEN)],
            Reaction::StimulumSynthesis => seq![
                (Gas::H2, THIRTY),
                (Gas::Pl, TEN),
                (Gas::BZ, TWENTY),
                (Gas::NO2, THIRTY),
            ],
            Reaction::HyperNobliumSynthesis => seq![(Gas::N2, TEN), (Gas::H2, FIVE)],
        }
    }

    /// The temperature minimum of this reaction's gate; BZ synthesis runs
    /// at any temperature.
    pub open spec fn least_temperature(self, th: Thresholds) -> u64 {
        match self {
            Reaction::N2oDecomposition => th.n2o_decomposition_min_temperature,
            Reaction::TritiumFire => BOILING_POINT,
            Reaction::PlasmaFire => th.plasma_minimum_burn_temperature,
            Reaction::Fusion => th.fusion_temperature_threshold,
            Reaction::NitrylFormation => th.nitryl_min_temperature,
            Reaction::BzSynthesis => NEG_INFINITY,
            Reaction::StimulumSynthesis => th.stimulum_min_temperature,
            Reaction::HyperNobliumSynthesis => FIVE_MILLION,
        }
    }

    /// This reaction's activation requirements under the given tuning.
    pub fn gate(self, th: &Thresholds) -> (g: Gate)
        ensures
            g.reaction == self,
            g.min_moles@ == self.needs(*th),
            g.min_temperature == self.least_temperature(*th),
    {
        let mm = th.minimum_mole_count;
        let (min_moles, min_temperature) = match self {
            Reaction::N2oDecomposition => (
                vec![(Gas::N2O, mm)],
                th.n2o_decomposition_min_temperature,
            ),
            Reaction::TritiumFire => (vec![(Gas::H2, mm), (Gas::O2, mm)], BOILING_POINT),
            Reaction::PlasmaFire => (
                vec![(Gas::Pl, mm), (Gas::O2, mm)],
                th.plasma_minimum_burn_temperature,
            ),
            Reaction::Fusion => (
                vec![
                    (Gas::H2, th.fusion_tritium_moles_used),
                    (Gas::Pl, th.fusion_mole_threshold),
                    (Gas::CO2, th.fusion_mole_threshold),
                ],
                th.fusion_temperature_threshold,
            ),
            Reaction::NitrylFormation => (
                vec![(Gas::N2, TWENTY), (Gas::O2, TWENTY), (Gas::PlOx, FIVE)],
                th.nitryl_min_temperature,
            ),
            Reaction::BzSynthesis => (vec![(Gas::N2O, TEN), (Gas::Pl, TEN)], NEG_INFINITY),
            Reaction::StimulumSynthesis => (
                vec![(Gas::H2, THIRTY), (Gas::Pl, TEN), (Gas::BZ, TWENTY), (Gas::NO2, THIRTY)],
                th.stimulum_min_temperature,
            ),
            Reaction::HyperNobliumSynthesis => (
                vec![(Gas::N2, TEN), (Gas::H2, FIVE)],
                FIVE_MILLION,
            ),
        };
        assert(min_moles@ =~= self.needs(*th));
        Gate { reaction: self, min_moles, min_temperature }
    }
}

/// The reaction at a position of the tick order.
pub open spec fn reaction_at(i: int) -> Reaction {
    if i == 0 {
        Reaction::N2oDecomposition
    } else if i == 1 {
        Reaction::TritiumFire
    } else if i == 2 {
        Reaction::PlasmaFire
    } else if i == 3 {
        Reaction::Fusion
    } else if i == 4 {
        Reaction::NitrylFormation
    } else if i == 5 {
        Reaction::BzSynthesis
    } else if i == 6 {
        Reaction::StimulumSynthesis
    } else {
        Reaction::HyperNobliumSynthesis
    }
}

/// Whether a sequence of gates is the full catalogue under a tuning: one
/// gate per reaction, in tick order.
pub open spec fn is_catalogue(gates: Seq<Gate>, th: Thresholds) -> bool {
    &&& gates.len() == REACTION_COUNT
    &&& forall|i: int|
        0 <= i < REACTION_COUNT ==> {
            let g = #[trigger] gates[i];
            &&& g.reaction == reaction_at(i)
            &&& g.min_moles@ == g.reaction.needs(th)
            &&& g.min_temperature == g.reaction.least_temperature(th)
        }
}

/// The gates of every reaction, in tick order: N2O decomposition, tritium
/// fire, plasma fire, fusion, nitryl formation, BZ synthesis, stimulum
/// synthesis, hyper-noblium synthesis.
pub fn catalogue(th: &Thresholds) -> (gates: Vec<Gate>)
    ensures
        is_catalogue(gates@, *th),
{
    let order = [
        Reaction::N2oDecomposition,
        Reaction::TritiumFire,
        Reaction::PlasmaFire,
        Reaction::Fusion,
        Reaction::NitrylFormation,
        Reaction::BzSynthesis,
        Reaction::StimulumSynthesis,
        Reaction::HyperNobliumSynthesis,
    ];
    let mut gates: Vec<Gate> = Vec::new();
    let mut i: usize = 0;
    while i < REACTION_COUNT
        invariant
            i <= REACTION_COUNT,
            gates@.len() == i,
            forall|j: int| 0 <= j < REACTION_COUNT ==> #[trigger] order@[j] == reaction_at(j),
            forall|j: int|
                0 <= j < i ==> {
                    let g = #[trigger] gates@[j];
                    &&& g.reaction == reaction_at(j)
                    &&& g.min_moles@ == g.reaction.needs(*th)
                    &&& g.min_temperature == g.reaction.least_temperature(*th)
                },
        decreases REACTION_COUNT - i,
    {
        gates.push(order[i].gate(th));
        i += 1;
    }
    gates
}

} // verus!
