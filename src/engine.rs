//! The tick driver: the hyper-noblium guard, the ordered pass over the
//! gates, and the drivers that repeat ticks.
//!
//! What a reaction does to an active mixture is the chemistry's business,
//! handed in as a function from reaction and mixture to mixture. The engine
//! calls it only when the reaction's gate is open, and keeps its answer only
//! when that answer is a well-formed mixture of the same volume: anything
//! else (a NaN, an infinity, a negative amount) leaves the step a no-op.
use vstd::prelude::*;
use crate::binary64::{finite, greater_or_equal, is_finite, less_than, lt, ge, ZERO};
use crate::catalogue::{Gate, Reaction, FIVE};
use crate::gas::{Gas, GasMixture, SPECIES_COUNT};

verus! {

/// How many ticks `react_until_done` computes at most before it gives up
/// waiting for a fixed point and returns the last mixture it reached.
pub const TICK_LIMIT: usize = 100_000;

/// A pure chemistry: callable on every reaction and mixture, and giving one
/// answer for each.
pub open spec fn is_chemistry<F: Fn(Reaction, GasMixture) -> GasMixture>(f: F) -> bool {
    &&& forall|k: Reaction, m: GasMixture| #[trigger] f.requires((k, m))
    &&& forall|k: Reaction, m: GasMixture, a: GasMixture, b: GasMixture|
        #[trigger] f.ensures((k, m), a) && #[trigger] f.ensures((k, m), b) ==> a == b
}

/// What the chemistry makes of a mixture in one reaction.
pub open spec fn outcome<F: Fn(Reaction, GasMixture) -> GasMixture>(
    f: F,
    k: Reaction,
    m: GasMixture,
) -> GasMixture {
    choose|o: GasMixture| f.ensures((k, m), o)
}

/// Whether hyper-noblium stops all chemistry: not below five moles.
pub open spec fn quenched(m: GasMixture) -> bool {
    !lt(m.moles(Gas::HNb), FIVE)
}

/// An answer of the chemistry that the engine keeps.
pub open spec fn admissible(before: GasMixture, after: GasMixture) -> bool {
    after.well_formed() && after.volume == before.volume
}

/// One reaction applied to a mixture: the chemistry's answer when the reaction
/// is active and the answer is admissible, else the mixture unchanged.
pub open spec fn stage<F: Fn(Reaction, GasMixture) -> GasMixture>(
    f: F,
    g: Gate,
    m: GasMixture,
) -> GasMixture {
    if g.active(m) && admissible(m, outcome(f, g.reaction, m)) {
        outcome(f, g.reaction, m)
    } else {
        m
    }
}

/// The mixture after the first `n` gates, each seeing the last one's result.
pub open spec fn pass<F: Fn(Reaction, GasMixture) -> GasMixture>(
    f: F,
    gates: Seq<Gate>,
    m: GasMixture,
    n: nat,
) -> GasMixture
    decreases n,
{
    if n == 0 {
        m
    } else {
        stage(f, gates[n - 1], pass(f, gates, m, (n - 1) as nat))
    }
}

/// One tick.
pub open spec fn tick<F: Fn(Reaction, GasMixture) -> GasMixture>(
    f: F,
    gates: Seq<Gate>,
    m: GasMixture,
) -> GasMixture {
    if quenched(m) {
        m
    } else {
        pass(f, gates, m, gates.len())
    }
}

/// The mixture after `n` ticks.
pub open spec fn iterate<F: Fn(Reaction, GasMixture) -> GasMixture>(
    f: F,
    gates: Seq<Gate>,
    m: GasMixture,
    n: nat,
) -> GasMixture
    decreases n,
{
    if n == 0 {
        m
    } else {
        tick(f, gates, iterate(f, gates, m, (n - 1) as nat))
    }
}

/// Ticks until one leaves the mixture as it was, computing at most `fuel`
/// ticks; the last tick's result.
pub open spec fn settle<F: Fn(Reaction, GasMixture) -> GasMixture>(
    f: F,
    gates: Seq<Gate>,
    m: GasMixture,
    fuel: nat,
) -> GasMixture
    decreases fuel,
{
    let next = tick(f, gates, m);
    if next == m || fuel <= 1 {
        next
    } else {
        settle(f, gates, next, (fuel - 1) as nat)
    }
}

/// Whether the mixture has less than five moles of hyper-noblium, so that
/// chemistry may run.
pub fn verify_hnob(gm: &GasMixture) -> (r: bool)
    ensures
        r == !quenched(*gm),
{
    less_than(gm.amount(Gas::HNb), FIVE)
}

/// Whether a mixture is well formed.
pub fn check_well_formed(m: &GasMixture) -> (r: bool)
    ensures
        r == m.well_formed(),
{
    let mut i: usize = 0;
    while i < SPECIES_COUNT
        invariant
            i <= SPECIES_COUNT,
            forall|j: int|
                0 <= j < i ==> is_finite(#[trigger] m.gases@[j]) && ge(m.gases@[j], ZERO),
        decreases SPECIES_COUNT - i,
    {
        if !finite(m.gases[i]) || !greater_or_equal(m.gases[i], ZERO) {
            return false;
        }
        i += 1;
    }
    finite(m.temperature) && greater_or_equal(m.temperature, ZERO) && finite(m.volume)
        && less_than(ZERO, m.volume)
}

/// One reaction: asks the chemistry only when the reaction is active.
pub fn react_stage<F: Fn(Reaction, GasMixture) -> GasMixture>(
    gm: GasMixture,
    gate: &Gate,
    chemistry: &F,
) -> (r: GasMixture)
    requires
        is_chemistry(*chemistry),
    ensures
        r == stage(*chemistry, *gate, gm),
{
    if !gate.is_active(&gm) {
        return gm;
    }
    let after = chemistry(gate.reaction, gm);
    assert(after == outcome(*chemistry, gate.reaction, gm));
    if check_well_formed(&after) && after.volume == gm.volume {
        after
    } else {
        gm
    }
}

/// One tick: the mixture unchanged where hyper-noblium quenches it, else
/// the gates in order, each reaction seeing the result of those before it.
pub fn react_once<F: Fn(Reaction, GasMixture) -> GasMixture>(
    gm: GasMixture,
    gates: &Vec<Gate>,
    chemistry: &F,
) -> (r: GasMixture)
    requires
        is_chemistry(*chemistry),
    ensures
        r == tick(*chemistry, gates@, gm),
{
    if !verify_hnob(&gm) {
        return gm;
    }
    let mut cur = gm;
    let mut i: usize = 0;
    while i < gates.len()
        invariant
            is_chemistry(*chemistry),
            i <= gates@.len(),
            cur == pass(*chemistry, gates@, gm, i as nat),
        decreases gates@.len() - i,
    {
        cur = react_stage(cur, &gates[i], chemistry);
        i += 1;
    }
    cur
}

/// The next `times` mixtures, each one tick after the one before it.
pub fn react_several<F: Fn(Reaction, GasMixture) -> GasMixture>(
    gm: GasMixture,
    times: usize,
    gates: &Vec<Gate>,
    chemistry: &F,
) -> (r: Vec<GasMixture>)
    requires
        is_chemistry(*chemistry),
    ensures
        r@.len() == times,
        forall|i: int| 0 <= i < times ==> #[trigger] r@[i] == iterate(*chemistry, gates@, gm, (i + 1) as nat),
{
    let mut result: Vec<GasMixture> = Vec::with_capacity(times);
    let mut cur = gm;
    let mut n: usize = 0;
    while n < times
        invariant
            is_chemistry(*chemistry),
            n <= times,
            result@.len() == n,
            cur == iterate(*chemistry, gates@, gm, n as nat),
            forall|i: int| 0 <= i < n ==> #[trigger] result@[i] == iterate(*chemistry, gates@, gm, (i + 1) as nat),
        decreases times - n,
    {
        cur = react_once(cur, gates, chemistry);
        result.push(cur);
        n += 1;
    }
    result
}

/// Ticks until a tick leaves the mixture unchanged, and returns that fixed
/// point; after `TICK_LIMIT` ticks without one, returns the last result.
pub fn react_until_done<F: Fn(Reaction, GasMixture) -> GasMixture>(
    gm: GasMixture,
    gates: &Vec<Gate>,
    chemistry: &F,
) -> (r: GasMixture)
    requires
        is_chemistry(*chemistry),
    ensures
        r == settle(*chemistry, gates@, gm, TICK_LIMIT as nat),
{
    let mut prev = gm;
    let mut next = react_once(gm, gates, chemistry);
    let mut fuel: usize = TICK_LIMIT;
    while prev != next && fuel > 1
        invariant
            is_chemistry(*chemistry),
            1 <= fuel <= TICK_LIMIT,
            next == tick(*chemistry, gates@, prev),
            settle(*chemistry, gates@, gm, TICK_LIMIT as nat) == settle(*chemistry, gates@, prev, fuel as nat),
        decreases fuel,
    {
        prev = next;
        next = react_once(next, gates, chemistry);
        fuel -= 1;
    }
    next
}

/// One tick of each mixture.
pub fn react_each_once<F: Fn(Reaction, GasMixture) -> GasMixture>(
    gms: Vec<GasMixture>,
    gates: &Vec<Gate>,
    chemistry: &F,
) -> (r: Vec<GasMixture>)
    requires
        is_chemistry(*chemistry),
    ensures
        r@.len() == gms@.len(),
        forall|i: int| 0 <= i < gms@.len() ==> #[trigger] r@[i] == tick(*chemistry, gates@, gms@[i]),
{
    let mut result: Vec<GasMixture> = Vec::with_capacity(gms.len());
    let mut i: usize = 0;
    while i < gms.len()
        invariant
            is_chemistry(*chemistry),
            i <= gms@.len(),
            result@.len() == i,
            forall|j: int| 0 <= j < i ==> #[trigger] result@[j] == tick(*chemistry, gates@, gms@[j]),
        decreases gms@.len() - i,
    {
        result.push(react_once(gms[i], gates, chemistry));
        i += 1;
    }
    result
}

/// `react_several` of each mixture.
pub fn react_each_several<F: Fn(Reaction, GasMixture) -> GasMixture>(
    gms: Vec<GasMixture>,
    times: usize,
    gates: &Vec<Gate>,
    chemistry: &F,
) -> (r: Vec<Vec<GasMixture>>)
    requires
        is_chemistry(*chemistry),
    ensures
        r@.len() == gms@.len(),
        forall|i: int| 0 <= i < gms@.len() ==> (#[trigger] r@[i])@.len() == times,
        forall|i: int, j: int|
            0 <= i < gms@.len() && 0 <= j < times ==> #[trigger] r@[i]@[j] == iterate(
                *chemistry,
                gates@,
                gms@[i],
                (j + 1) as nat,
            ),
{
    let mut result: Vec<Vec<GasMixture>> = Vec::with_capacity(gms.len());
    let mut i: usize = 0;
    while i < gms.len()
        invariant
            is_chemistry(*chemistry),
            i <= gms@.len(),
            result@.len() == i,
            forall|k: int| 0 <= k < i ==> (#[trigger] result@[k])@.len() == times,
            forall|k: int, j: int|
                0 <= k < i && 0 <= j < times ==> #[trigger] result@[k]@[j] == iterate(
                    *chemistry,
                    gates@,
                    gms@[k],
                    (j + 1) as nat,
                ),
        decreases gms@.len() - i,
    {
        result.push(react_several(gms[i], times, gates, chemistry));
        i += 1;
    }
    result
}

/// `react_until_done` of each mixture.
pub fn react_each_until_done<F: Fn(Reaction, GasMixture) -> GasMixture>(
    gms: Vec<GasMixture>,
    gates: &Vec<Gate>,
    chemistry: &F,
) -> (r: Vec<GasMixture>)
    requires
        is_chemistry(*chemistry),
    ensures
        r@.len() == gms@.len(),
        forall|i: int|
            0 <= i < gms@.len() ==> #[trigger] r@[i] == settle(*chemistry, gates@, gms@[i], TICK_LIMIT as nat),
{
    let mut result: Vec<GasMixture> = Vec::with_capacity(gms.len());
    let mut i: usize = 0;
    while i < gms.len()
        invariant
            is_chemistry(*chemistry),
            i <= gms@.len(),
            result@.len() == i,
            forall|j: int|
                0 <= j < i ==> #[trigger] result@[j] == settle(*chemistry, gates@, gms@[j], TICK_LIMIT as nat),
        decreases gms@.len() - i,
    {
        result.push(react_until_done(gms[i], gates, chemistry));
        i += 1;
    }
    result
}

} // verus!
