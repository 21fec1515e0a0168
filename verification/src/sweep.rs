use vstd::prelude::*;

use rayon::iter::{IntoParallelRefIterator, ParallelIterator};

use crate::rng::rng_reset;
use crate::sim::{simulate_goop, spec_outcome, Samus};

verus! {

/// The lowest target column of the scan.
pub const SCAN_X_LO: i16 = 0x45;

/// The highest target column of the scan, inclusive.
pub const SCAN_X_HI: i16 = 0x19B;

/// The fixed target height of the scan.
pub const SCAN_Y: i16 = 0x1B5;

/// The number of starting timer phases each seed is tried with.
pub const PHASE_COUNT: u8 = 128;

/// One row of the output table: for one (side, column), how many of the
/// seed-times-phase trials hit, out of how many, and the probability in
/// hundredths of a percent rounded half up.
pub struct SweepRow {
    pub x: i16,
    pub hit_count: u64,
    pub total_trials: u64,
    pub percent_bp: u64,
}

/// 1 when the trial with this seed and phase ends in a hit.
pub open spec fn spec_trial_hit(seed: u16, phase: u8, left: bool, s: Samus) -> nat {
    if spec_outcome(seed, phase, left, s) == Some(true) {
        1nat
    } else {
        0nat
    }
}

/// The number of hits over the starting phases [0, n) for one seed.
pub open spec fn spec_phase_hits(seed: u16, left: bool, s: Samus, n: nat) -> nat
    decreases n,
{
    if n == 0 {
        0nat
    } else {
        spec_phase_hits(seed, left, s, (n - 1) as nat) + spec_trial_hit(
            seed,
            ((n - 1) as nat) as u8,
            left,
            s,
        )
    }
}

/// The number of hits over all seeds, each tried with every phase.
pub open spec fn spec_sweep_hits(seeds: Seq<u16>, left: bool, s: Samus) -> nat
    decreases seeds.len(),
{
    if seeds.len() == 0 {
        0nat
    } else {
        spec_sweep_hits(seeds.drop_last(), left, s) + spec_phase_hits(
            seeds.last(),
            left,
            s,
            PHASE_COUNT as nat,
        )
    }
}

/// One trial: a fresh post-reset generator reseeded with the trial's seed,
/// run to the encounter's outcome.
pub fn run_trial(seed: u16, phase: u8, left: bool, samus: &Samus) -> (r: bool)
    ensures
        Some(r) == spec_outcome(seed, phase, left, *samus),
{
    let base = rng_reset();
    let rng = base.with_seed(seed);
    simulate_goop(rng, phase, left, samus)
}

/// The number of hits for one seed across all starting phases.
pub fn phase_hits(seed: u16, left: bool, samus: &Samus) -> (r: u64)
    ensures
        r == spec_phase_hits(seed, left, *samus, PHASE_COUNT as nat),
        r <= PHASE_COUNT,
{
    let mut hits: u64 = 0;
    let mut phase: u8 = 0;
    while phase < PHASE_COUNT
        invariant
            phase <= PHASE_COUNT,
            hits == spec_phase_hits(seed, left, *samus, phase as nat),
            hits <= phase,
        decreases PHASE_COUNT - phase,
    {
        if run_trial(seed, phase, left, samus) {
            hits = hits + 1;
        }
        phase = phase + 1;
        proof {
            assert(spec_phase_hits(seed, left, *samus, phase as nat) == spec_phase_hits(
                seed,
                left,
                *samus,
                (phase - 1) as nat,
            ) + spec_trial_hit(seed, (phase - 1) as u8, left, *samus));
        }
    }
    hits
}

/// The number of hits over all seeds, each tried with every phase, counted
/// one trial after another.
pub fn sweep_hits(seeds: &Vec<u16>, left: bool, samus: &Samus) -> (r: u64)
    requires
        seeds@.len() <= 0x1_0000_0000,
    ensures
        r == spec_sweep_hits(seeds@, left, *samus),
        r <= seeds@.len() * 128,
{
    let mut hits: u64 = 0;
    let mut i: usize = 0;
    while i < seeds.len()
        invariant
            i <= seeds@.len(),
            seeds@.len() <= 0x1_0000_0000,
            hits == spec_sweep_hits(seeds@.take(i as int), left, *samus),
            hits <= i * 128,
        decreases seeds@.len() - i,
    {
        let h = phase_hits(seeds[i], left, samus);
        proof {
            assert(seeds@.take(i + 1).drop_last() =~= seeds@.take(i as int));
            assert(seeds@.take(i + 1).last() == seeds@[i as int]);
        }
        hits = hits + h;
        i = i + 1;
    }
    proof {
        assert(seeds@.take(seeds@.len() as int) =~= seeds@);
    }
    hits
}

/// Relies on rayon's par_iter, map and sum over u64: the parallel sum of
/// the per-seed counts equals the sequential sum, u64 addition being
/// associative and commutative; each closure call is the verified per-seed
/// count, so trials share no mutable state.
#[verifier::external_body]
pub fn sweep_hits_par(seeds: &Vec<u16>, left: bool, samus: &Samus) -> (r: u64)
    requires
        seeds@.len() <= 0x1_0000_0000,
    ensures
        r == spec_sweep_hits(seeds@, left, *samus),
{
    seeds.par_iter().map(|seed: &u16| phase_hits(*seed, left, samus)).sum::<u64>()
}

/// The hit probability in hundredths of a percent, rounded half up:
/// round(hits / total * 10000), computed as an integer division. The second
/// clause pins the result as the half-up rounding of 10000 * hits / total.
pub fn percent_basis_points(hits: u64, total: u64) -> (r: u64)
    requires
        1 <= total,
        hits <= total,
        total <= 0x1000_0000_0000,
    ensures
        r == (hits * 20000 + total) / (2 * total),
        2 * total * r <= 2 * (hits * 10000) + total < 2 * total * (r + 1),
        r <= 10000,
{
    proof {
        let q = ((hits * 20000 + total) / (2 * total)) as int;
        assert(2 * total * q <= 2 * (hits * 10000) + total < 2 * total * (q + 1))
            by (nonlinear_arith)
            requires
                q == (hits * 20000 + total) / (2 * total),
                1 <= total,
        ;
        assert((hits * 20000 + total) / (2 * total) <= 10000) by (nonlinear_arith)
            requires
                1 <= total,
                hits <= total,
        ;
    }
    (hits * 20000 + total) / (2 * total)
}

/// What one row of a side's scan states for column index i.
pub open spec fn row_ok(row: SweepRow, seeds: Seq<u16>, left: bool, i: int) -> bool {
    &&& row.x == SCAN_X_LO + i
    &&& row.total_trials == seeds.len() * 128
    &&& row.hit_count == spec_sweep_hits(
        seeds,
        left,
        (Samus { x: (SCAN_X_LO + i) as i16, y: SCAN_Y }),
    )
    &&& row.hit_count <= row.total_trials
    &&& seeds.len() > 0 ==> row.percent_bp == (row.hit_count * 20000 + row.total_trials) / (2
        * row.total_trials)
}

/// The sweep cell for one target column: every seed crossed with every
/// starting phase, one encounter each, and the aggregate counts.
pub fn sweep_column(seeds: &Vec<u16>, left: bool, x: i16, y: i16) -> (r: SweepRow)
    requires
        seeds@.len() <= 0x1_0000_0000,
    ensures
        r.x == x,
        r.total_trials == seeds@.len() * 128,
        r.hit_count == spec_sweep_hits(seeds@, left, (Samus { x, y })),
        r.hit_count <= r.total_trials,
        seeds@.len() > 0 ==> r.percent_bp == (r.hit_count * 20000 + r.total_trials) / (2
            * r.total_trials),
        seeds@.len() == 0 ==> r.percent_bp == 0,
{
    let samus = Samus { x, y };
    let hit_count = sweep_hits(seeds, left, &samus);
    let total_trials = (seeds.len() as u64) * 128;
    let percent_bp = if total_trials == 0 {
        0
    } else {
        percent_basis_points(hit_count, total_trials)
    };
    SweepRow { x, hit_count, total_trials, percent_bp }
}

/// The full scan for one side: one row per target column of the inclusive
/// scan range, at the fixed scan height.
pub fn sweep_side(seeds: &Vec<u16>, left: bool) -> (r: Vec<SweepRow>)
    requires
        seeds@.len() <= 0x1_0000_0000,
    ensures
        r@.len() == SCAN_X_HI - SCAN_X_LO + 1,
        forall|i: int| 0 <= i < r@.len() ==> row_ok(r@[i], seeds@, left, i),
{
    let mut rows: Vec<SweepRow> = Vec::new();
    let mut x: i16 = SCAN_X_LO;
    while x <= SCAN_X_HI
        invariant
            SCAN_X_LO <= x <= SCAN_X_HI + 1,
            seeds@.len() <= 0x1_0000_0000,
            rows@.len() == x - SCAN_X_LO,
            forall|i: int| 0 <= i < rows@.len() ==> row_ok(rows@[i], seeds@, left, i),
        decreases SCAN_X_HI + 1 - x,
    {
        let row = sweep_column(seeds, left, x, SCAN_Y);
        rows.push(row);
        x = x + 1;
    }
    rows
}

} // verus!
