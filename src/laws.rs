//! What holds of every tick and of the drivers built on it.
use vstd::prelude::*;
use crate::binary64::{ge, ZERO};
use crate::catalogue::{Gate, Reaction, FIVE};
use crate::engine::{iterate, pass, settle, stage, tick, TICK_LIMIT};
use crate::gas::{Gas, GasMixture, SPECIES_COUNT};

verus! {

proof fn lemma_pass_keeps_volume<F: Fn(Reaction, GasMixture) -> GasMixture>(
    f: F,
    gates: Seq<Gate>,
    m: GasMixture,
    n: nat,
)
    ensures
        pass(f, gates, m, n).volume == m.volume,
    decreases n,
{
    if n > 0 {
        lemma_pass_keeps_volume(f, gates, m, (n - 1) as nat);
    }
}

proof fn lemma_pass_keeps_well_formed<F: Fn(Reaction, GasMixture) -> GasMixture>(
    f: F,
    gates: Seq<Gate>,
    m: GasMixture,
    n: nat,
)
    requires
        m.well_formed(),
    ensures
        pass(f, gates, m, n).well_formed(),
    decreases n,
{
    if n > 0 {
        lemma_pass_keeps_well_formed(f, gates, m, (n - 1) as nat);
    }
}

proof fn lemma_pass_inert<F: Fn(Reaction, GasMixture) -> GasMixture>(
    f: F,
    gates: Seq<Gate>,
    m: GasMixture,
    n: nat,
)
    requires
        n <= gates.len(),
        forall|i: int| 0 <= i < gates.len() ==> !(#[trigger] gates[i]).active(m),
    ensures
        pass(f, gates, m, n) == m,
    decreases n,
{
    if n > 0 {
        lemma_pass_inert(f, gates, m, (n - 1) as nat);
        assert(!gates[n - 1].active(m));
    }
}

/// A tick never changes the volume.
pub proof fn lemma_tick_keeps_volume<F: Fn(Reaction, GasMixture) -> GasMixture>(
    f: F,
    gates: Seq<Gate>,
    m: GasMixture,
)
    ensures
        tick(f, gates, m).volume == m.volume,
{
    lemma_pass_keeps_volume(f, gates, m, gates.len());
}

/// A tick of a well-formed mixture is well formed: no species below zero
/// moles and no temperature below zero kelvin.
pub proof fn lemma_tick_keeps_well_formed<F: Fn(Reaction, GasMixture) -> GasMixture>(
    f: F,
    gates: Seq<Gate>,
    m: GasMixture,
)
    requires
        m.well_formed(),
    ensures
        tick(f, gates, m).well_formed(),
        forall|i: int| 0 <= i < SPECIES_COUNT ==> ge(#[trigger] tick(f, gates, m).gases@[i], ZERO),
        ge(tick(f, gates, m).temperature, ZERO),
{
    lemma_pass_keeps_well_formed(f, gates, m, gates.len());
}

/// Every mixture that ticks reach from a well-formed mixture is well formed
/// and has its volume.
pub proof fn lemma_iterate_keeps_well_formed<F: Fn(Reaction, GasMixture) -> GasMixture>(
    f: F,
    gates: Seq<Gate>,
    m: GasMixture,
    n: nat,
)
    requires
        m.well_formed(),
    ensures
        iterate(f, gates, m, n).well_formed(),
        iterate(f, gates, m, n).volume == m.volume,
    decreases n,
{
    if n > 0 {
        let prev = iterate(f, gates, m, (n - 1) as nat);
        lemma_iterate_keeps_well_formed(f, gates, m, (n - 1) as nat);
        lemma_tick_keeps_well_formed(f, gates, prev);
        lemma_tick_keeps_volume(f, gates, prev);
    }
}

/// With five moles of hyper-noblium or more, neither a tick nor ticking to
/// a fixed point changes the mixture.
pub proof fn lemma_quench<F: Fn(Reaction, GasMixture) -> GasMixture>(
    f: F,
    gates: Seq<Gate>,
    m: GasMixture,
)
    requires
        ge(m.moles(Gas::HNb), FIVE),
    ensures
        tick(f, gates, m) == m,
        settle(f, gates, m, TICK_LIMIT as nat) == m,
{
}

/// Where no gate is open, a tick leaves the mixture as it is.
pub proof fn lemma_inert<F: Fn(Reaction, GasMixture) -> GasMixture>(
    f: F,
    gates: Seq<Gate>,
    m: GasMixture,
)
    requires
        forall|i: int| 0 <= i < gates.len() ==> !(#[trigger] gates[i]).active(m),
    ensures
        tick(f, gates, m) == m,
{
    lemma_pass_inert(f, gates, m, gates.len());
}

proof fn lemma_iterate_from_next<F: Fn(Reaction, GasMixture) -> GasMixture>(
    f: F,
    gates: Seq<Gate>,
    m: GasMixture,
    k: nat,
)
    requires
        k >= 1,
    ensures
        iterate(f, gates, m, k) == iterate(f, gates, tick(f, gates, m), (k - 1) as nat),
    decreases k,
{
    if k > 1 {
        lemma_iterate_from_next(f, gates, m, (k - 1) as nat);
        assert(iterate(f, gates, tick(f, gates, m), (k - 1) as nat) == tick(
            f,
            gates,
            iterate(f, gates, tick(f, gates, m), (k - 2) as nat),
        ));
    } else {
        assert(iterate(f, gates, m, 0) == m);
        assert(iterate(f, gates, tick(f, gates, m), 0) == tick(f, gates, m));
    }
}

proof fn lemma_settle_at_rest<F: Fn(Reaction, GasMixture) -> GasMixture>(
    f: F,
    gates: Seq<Gate>,
    m: GasMixture,
    fuel: nat,
    k: nat,
)
    requires
        k < fuel,
        tick(f, gates, iterate(f, gates, m, k)) == iterate(f, gates, m, k),
    ensures
        tick(f, gates, settle(f, gates, m, fuel)) == settle(f, gates, m, fuel),
    decreases fuel,
{
    let next = tick(f, gates, m);
    if next != m {
        assert(k >= 1);
        lemma_iterate_from_next(f, gates, m, k);
        lemma_settle_at_rest(f, gates, next, (fuel - 1) as nat, (k - 1) as nat);
    }
}

/// When some mixture among the first `TICK_LIMIT` ticks is a fixed point,
/// ticking to a fixed point returns one: one more tick leaves it unchanged.
pub proof fn lemma_done_is_fixed_point<F: Fn(Reaction, GasMixture) -> GasMixture>(
    f: F,
    gates: Seq<Gate>,
    m: GasMixture,
)
    requires
        exists|k: nat|
            k < TICK_LIMIT && tick(f, gates, #[trigger] iterate(f, gates, m, k)) == iterate(
                f,
                gates,
                m,
                k,
            ),
    ensures
        tick(f, gates, settle(f, gates, m, TICK_LIMIT as nat)) == settle(
            f,
            gates,
            m,
            TICK_LIMIT as nat,
        ),
{
    let k = choose|k: nat|
        k < TICK_LIMIT && tick(f, gates, #[trigger] iterate(f, gates, m, k)) == iterate(
            f,
            gates,
            m,
            k,
        );
    lemma_settle_at_rest(f, gates, m, TICK_LIMIT as nat, k);
}

} // verus!
