//! The fan-out of workers: one per (participant, market) pair, seeded with
//! its creation index.
use vstd::prelude::*;

verus! {

/// What one worker is started with.
#[derive(Clone, Copy, PartialEq, Eq, Structural, Debug)]
pub struct WorkerSpec {
    pub seed: u64,
    pub participant: usize,
    pub market: usize,
}

/// The worker created `i`-th among `markets` markets per participant:
/// participants in order, and for each its markets in order.
pub open spec fn spec_at(i: nat, markets: nat) -> WorkerSpec {
    WorkerSpec { seed: i as u64, participant: (i / markets) as usize, market: (i % markets) as usize }
}

/// Creation index of the worker for participant `p` and market `m`.
pub open spec fn pair_index(p: int, m: int, markets: nat) -> int {
    p * markets + m
}

/// The workers for `participants` participants and `markets` markets, in
/// creation order: one per pair, participant-major, seeds 0, 1, 2, ...
pub fn plan_workers(participants: usize, markets: usize) -> (r: Vec<WorkerSpec>)
    requires
        participants * markets <= usize::MAX,
        participants * markets <= u64::MAX,
    ensures
        r@.len() == participants * markets,
        forall|i: int| 0 <= i < r@.len() ==> #[trigger] r@[i] == spec_at(i as nat, markets as nat),
{
    let mut r: Vec<WorkerSpec> = Vec::new();
    let mut seed: u64 = 0;
    let mut p: usize = 0;
    while p < participants
        invariant
            0 <= p <= participants,
            participants * markets <= usize::MAX,
            participants * markets <= u64::MAX,
            r@.len() == p * markets,
            seed == p * markets,
            forall|i: int| 0 <= i < r@.len() ==> #[trigger] r@[i] == spec_at(i as nat, markets as nat),
        decreases participants - p,
    {
        let mut m: usize = 0;
        while m < markets
            invariant
                0 <= p < participants,
                0 <= m <= markets,
                participants * markets <= usize::MAX,
                participants * markets <= u64::MAX,
                r@.len() == p * markets + m,
                seed == p * markets + m,
                forall|i: int| 0 <= i < r@.len() ==> #[trigger] r@[i] == spec_at(i as nat, markets as nat),
            decreases markets - m,
        {
            proof {
                assert((p + 1) * markets <= participants * markets) by (nonlinear_arith)
                    requires
                        p + 1 <= participants,
                ;
                assert((p + 1) * markets == p * markets + markets) by (nonlinear_arith);
                assert((p * markets + m) / (markets as int) == p && (p * markets + m) % (markets as int) == m)
                    by (nonlinear_arith)
                    requires
                        0 <= m < markets,
                        0 <= p,
                ;
            }
            r.push(WorkerSpec { seed, participant: p, market: m });
            seed = seed + 1;
            m = m + 1;
        }
        proof {
            assert(p * markets + markets == (p + 1) * markets) by (nonlinear_arith);
        }
        p = p + 1;
    }
    r
}

/// `participants` × `markets` workers get the seeds 0 to their count minus
/// one in creation order, distinct, and every (participant, market) pair
/// gets exactly one worker.
pub proof fn lemma_one_worker_per_pair(specs: Seq<WorkerSpec>, participants: nat, markets: nat)
    requires
        specs.len() == participants * markets,
        specs.len() <= u64::MAX,
        specs.len() <= usize::MAX,
        forall|i: int| 0 <= i < specs.len() ==> #[trigger] specs[i] == spec_at(i as nat, markets),
    ensures
        forall|i: int| 0 <= i < specs.len() ==> #[trigger] specs[i].seed == i,
        forall|i: int, j: int| 0 <= i < j < specs.len() ==> #[trigger] specs[i].seed != #[trigger] specs[j].seed,
        forall|i: int| 0 <= i < specs.len() ==> #[trigger] specs[i].participant < participants
            && specs[i].market < markets,
        forall|p: int, m: int|
            0 <= p < participants && 0 <= m < markets ==> ({
                let i = #[trigger] pair_index(p, m, markets);
                &&& 0 <= i < specs.len()
                &&& specs[i].participant == p
                &&& specs[i].market == m
            }),
        forall|i: int, j: int|
            0 <= i < j < specs.len() ==> (#[trigger] specs[i].participant, specs[i].market) != (
                #[trigger] specs[j].participant,
                specs[j].market,
            ),
{
    assert forall|i: int| 0 <= i < specs.len() implies #[trigger] specs[i].participant < participants
        && specs[i].market < markets by {
        assert(markets > 0) by (nonlinear_arith)
            requires
                0 <= i < participants * markets,
        ;
        assert(i / (markets as int) < participants) by (nonlinear_arith)
            requires
                0 <= i < participants * markets,
                markets > 0,
        ;
    }
    assert forall|p: int, m: int| 0 <= p < participants && 0 <= m < markets implies ({
        let i = #[trigger] pair_index(p, m, markets);
        &&& 0 <= i < specs.len()
        &&& specs[i].participant == p
        &&& specs[i].market == m
    }) by {
        let i = p * markets + m;
        assert(0 <= i < participants * markets) by (nonlinear_arith)
            requires
                0 <= p < participants,
                0 <= m < markets,
                i == p * markets + m,
        ;
        assert(i / (markets as int) == p && i % (markets as int) == m) by (nonlinear_arith)
            requires
                0 <= m < markets,
                0 <= p,
                i == p * markets + m,
        ;
        assert(specs[i] == spec_at(i as nat, markets));
    }
    assert forall|i: int, j: int| 0 <= i < j < specs.len() implies (#[trigger] specs[i].participant, specs[i].market)
        != (#[trigger] specs[j].participant, specs[j].market) by {
        assert(markets > 0) by (nonlinear_arith)
            requires
                0 <= i < participants * markets,
        ;
        let (pi, mi) = (i / (markets as int), i % (markets as int));
        let (pj, mj) = (j / (markets as int), j % (markets as int));
        assert(i == pi * markets + mi && j == pj * markets + mj) by (nonlinear_arith)
            requires
                markets > 0,
                pi == i / (markets as int),
                mi == i % (markets as int),
                pj == j / (markets as int),
                mj == j % (markets as int),
        ;
        assert(i / (markets as int) <= participants && j / (markets as int) < participants) by (nonlinear_arith)
            requires
                0 <= i < j < participants * markets,
                markets > 0,
        ;
        assert(specs[i] == spec_at(i as nat, markets));
        assert(specs[j] == spec_at(j as nat, markets));
    }
}

} // verus!
