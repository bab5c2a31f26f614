//! Applies a dive profile to an algorithm at a fixed sampling interval and
//! collects a snapshot of every compartment after each step.
use crate::algorithm::{ran, snapshots_of, DecoAlgorithm, DecoAlgorithmVariant};
use crate::gas::GasMix;
use crate::profile::{DiveProfile, DiveProfileLevel};
use crate::tissue::{CompartmentSnapshot, ZHL16Compartment};
use crate::utils::{ata_at, calc_ata, MAX_DEPTH_CM};
use vstd::prelude::*;

verus! {

/// One step of a run: the gas, the ambient pressure (10^-4 atm) and the
/// exposure in seconds.
#[derive(Clone, Copy, Debug, PartialEq, Eq, Structural)]
pub struct RunStep {
    pub mix: GasMix,
    pub ata: u32,
    pub seconds: u64,
}

/// Steps of a level of `time` minutes: `time / interval` full steps, then one
/// of the remainder if there is one.
pub open spec fn step_count(time: int, interval: int) -> int {
    time / interval + if time % interval > 0 {
        1int
    } else {
        0int
    }
}

/// The steps of one level.
pub open spec fn level_steps(level: DiveProfileLevel, interval: u32) -> Seq<RunStep> {
    Seq::new(
        step_count(level.time as int, interval as int) as nat,
        |k: int|
            RunStep {
                mix: level.gas_mix,
                ata: ata_at(level.depth as int) as u32,
                seconds: (if k < level.time / interval {
                    interval * 60
                } else {
                    (level.time % interval) * 60
                }) as u64,
            },
    )
}

/// The steps of a whole profile, level after level.
pub open spec fn profile_steps(levels: Seq<DiveProfileLevel>, interval: u32) -> Seq<RunStep>
    decreases levels.len(),
{
    if levels.len() == 0 {
        Seq::empty()
    } else {
        profile_steps(levels.drop_last(), interval) + level_steps(levels.last(), interval)
    }
}

/// A single level of `time` minutes gives `ceil(time / interval)` steps: the
/// full steps of `interval` minutes and one more of the remainder if any.
pub proof fn lemma_level_step_count(level: DiveProfileLevel, interval: u32)
    requires
        interval > 0,
    ensures
        profile_steps(seq![level], interval) == level_steps(level, interval),
        level_steps(level, interval).len() == (level.time + interval - 1) / interval as int,
{
    let levels = seq![level];
    assert(levels.drop_last() =~= Seq::<DiveProfileLevel>::empty());
    assert(profile_steps(levels.drop_last(), interval) == Seq::<RunStep>::empty());
    assert(profile_steps(levels, interval) =~= level_steps(level, interval));
    let t = level.time as int;
    let i = interval as int;
    assert(t == i * (t / i) + t % i) by (nonlinear_arith)
        requires
            i > 0,
    ;
    assert(0 <= t % i < i);
    if t % i > 0 {
        assert((t + i - 1) / i == t / i + 1) by (nonlinear_arith)
            requires
                i > 0,
                t == i * (t / i) + t % i,
                0 < t % i < i,
        ;
    } else {
        assert((t + i - 1) / i == t / i) by (nonlinear_arith)
            requires
                i > 0,
                t == i * (t / i),
        ;
    }
}

/// The compartments after the steps, one after the other.
pub open spec fn run_steps(
    variant: DecoAlgorithmVariant,
    ts: Seq<ZHL16Compartment>,
    steps: Seq<RunStep>,
) -> Seq<ZHL16Compartment>
    decreases steps.len(),
{
    if steps.len() == 0 {
        ts
    } else {
        let s = steps.last();
        ran(variant, run_steps(variant, ts, steps.drop_last()), s.mix, s.ata, s.seconds)
    }
}

/// Whether every level's depth is within the range of the pressure type.
pub open spec fn depths_in_range(levels: Seq<DiveProfileLevel>) -> bool {
    forall|i: int| 0 <= i < levels.len() ==> (#[trigger] levels[i]).depth <= MAX_DEPTH_CM
}

#[derive(Debug)]
pub struct AlgorithmRunResult {
    pub interval_period: u32,
    pub snapshots: Vec<Vec<CompartmentSnapshot>>,
}

impl AlgorithmRunResult {
    pub open spec fn snapshots_view(&self) -> Seq<Seq<CompartmentSnapshot>> {
        self.snapshots@.map_values(|v: Vec<CompartmentSnapshot>| v@)
    }

    /// A copy holding the same snapshots.
    pub fn duplicate(&self) -> (r: Self)
        ensures
            r.interval_period == self.interval_period,
            r.snapshots_view() == self.snapshots_view(),
    {
        let mut snapshots: Vec<Vec<CompartmentSnapshot>> = Vec::new();
        let mut i: usize = 0;
        while i < self.snapshots.len()
            invariant
                i <= self.snapshots@.len(),
                snapshots@.len() == i,
                forall|j: int| 0 <= j < i ==> (#[trigger] snapshots@[j])@ == self.snapshots@[j]@,
            decreases self.snapshots@.len() - i,
        {
            let row = &self.snapshots[i];
            let mut copy: Vec<CompartmentSnapshot> = Vec::new();
            let mut k: usize = 0;
            while k < row.len()
                invariant
                    k <= row@.len(),
                    copy@ == row@.subrange(0, k as int),
                decreases row@.len() - k,
            {
                copy.push(row[k]);
                k = k + 1;
                proof {
                    assert(copy@ =~= row@.subrange(0, k as int));
                }
            }
            proof {
                assert(copy@ =~= row@);
            }
            snapshots.push(copy);
            i = i + 1;
        }
        let r = AlgorithmRunResult { interval_period: self.interval_period, snapshots };
        proof {
            assert(r.snapshots_view() =~= self.snapshots_view());
        }
        r
    }
}

pub struct AlgorithmRunner {
    algo: DecoAlgorithm,
    result: Option<AlgorithmRunResult>,
}

impl AlgorithmRunner {
    /// The algorithm's kind and compartments.
    pub closed spec fn algo_state(&self) -> (DecoAlgorithmVariant, Seq<ZHL16Compartment>) {
        self.algo@
    }

    /// The interval and snapshots of the last run, if any.
    pub closed spec fn last_result(&self) -> Option<(u32, Seq<Seq<CompartmentSnapshot>>)> {
        match self.result {
            Some(r) => Some((r.interval_period, r.snapshots_view())),
            None => None,
        }
    }

    pub closed spec fn wf(&self) -> bool {
        self.algo.wf()
    }

    pub fn new(algo: DecoAlgorithm) -> (r: Self)
        requires
            algo.wf(),
        ensures
            r.wf(),
            r.algo_state() == algo@,
            r.last_result() == None::<(u32, Seq<Seq<CompartmentSnapshot>>)>,
    {
        AlgorithmRunner { algo, result: None }
    }

    /// Runs the profile level by level: each level of `time` minutes is
    /// `time / interval_period` steps of `interval_period` minutes and one
    /// step of the remainder if it is not zero; after every step a snapshot
    /// of all compartments is taken. The result replaces the previous one.
    pub fn run(&mut self, interval_period: u32, dive_profile: DiveProfile) -> (r: AlgorithmRunResult)
        requires
            interval_period > 0,
            old(self).wf(),
            depths_in_range(dive_profile.levels@),
        ensures
            ({
                let steps = profile_steps(dive_profile.levels@, interval_period);
                let v = old(self).algo_state().0;
                let ts = old(self).algo_state().1;
                &&& final(self).wf()
                &&& r.interval_period == interval_period
                &&& r.snapshots_view().len() == steps.len()
                &&& forall|j: int|
                    0 <= j < steps.len() ==> #[trigger] r.snapshots_view()[j] == snapshots_of(
                        v,
                        run_steps(v, ts, steps.take(j + 1)),
                    )
                &&& final(self).algo_state() == (v, run_steps(v, ts, steps))
                &&& final(self).last_result() == Some((interval_period, r.snapshots_view()))
            }),
    {
        let levels = &dive_profile.levels;
        let ghost v = self.algo@.0;
        let ghost ts = self.algo@.1;
        let ghost mut done: Seq<RunStep> = Seq::empty();
        let mut snapshots: Vec<Vec<CompartmentSnapshot>> = Vec::new();
        let mut li: usize = 0;
        while li < levels.len()
            invariant
                interval_period > 0,
                depths_in_range(levels@),
                li <= levels@.len(),
                self.algo.wf(),
                self.algo@.0 == v,
                done == profile_steps(levels@.take(li as int), interval_period),
                self.algo@.1 == run_steps(v, ts, done),
                snapshots@.len() == done.len(),
                forall|j: int|
                    0 <= j < done.len() ==> (#[trigger] snapshots@[j])@ == snapshots_of(
                        v,
                        run_steps(v, ts, done.take(j + 1)),
                    ),
            decreases levels@.len() - li,
        {
            let level = levels[li];
            proof {
                assert(level.depth <= MAX_DEPTH_CM);
            }
            let ata = calc_ata(level.depth);
            let full = level.time / interval_period;
            let rem = level.time % interval_period;
            let ghost before = done;
            let ghost lsteps = level_steps(level, interval_period);
            let count: u64 = if rem > 0 {
                full as u64 + 1
            } else {
                full as u64
            };
            let mut k: u64 = 0;
            while k < count
                invariant
                    count == lsteps.len(),
                    interval_period > 0,
                    full == level.time / interval_period,
                    rem == level.time % interval_period,
                    ata == ata_at(level.depth as int),
                    lsteps == level_steps(level, interval_period),
                    k <= lsteps.len(),
                    self.algo.wf(),
                    self.algo@.0 == v,
                    done == before + lsteps.take(k as int),
                    self.algo@.1 == run_steps(v, ts, done),
                    snapshots@.len() == done.len(),
                    forall|j: int|
                        0 <= j < done.len() ==> (#[trigger] snapshots@[j])@ == snapshots_of(
                            v,
                            run_steps(v, ts, done.take(j + 1)),
                        ),
                decreases lsteps.len() - k,
            {
                let seconds: u64 = if k < full as u64 {
                    interval_period as u64 * 60
                } else {
                    rem as u64 * 60
                };
                self.algo.run(level.gas_mix, ata, seconds);
                let snap = self.algo.snapshot();
                let ghost old_done = done;
                proof {
                    let s = lsteps[k as int];
                    assert(s == RunStep { mix: level.gas_mix, ata, seconds });
                    done = done.push(s);
                    assert(done.drop_last() =~= old_done);
                    assert(done.take(done.len() as int) =~= done);
                    assert forall|j: int| 0 <= j < old_done.len() implies done.take(j + 1) == #[trigger] old_done.take(j + 1) by {
                        assert(done.take(j + 1) =~= old_done.take(j + 1));
                    }
                    assert(done =~= before + lsteps.take(k + 1));
                }
                snapshots.push(snap);
                k = k + 1;
            }
            proof {
                assert(lsteps.take(lsteps.len() as int) =~= lsteps);
                assert(levels@.take(li + 1).drop_last() =~= levels@.take(li as int));
                assert(levels@.take(li + 1).last() == level);
            }
            li = li + 1;
        }
        proof {
            assert(levels@.take(levels@.len() as int) =~= levels@);
        }
        let r = AlgorithmRunResult { interval_period, snapshots };
        proof {
            assert forall|j: int| 0 <= j < done.len() implies #[trigger] r.snapshots_view()[j] == snapshots_of(
                v,
                run_steps(v, ts, done.take(j + 1)),
            ) by {
                assert(r.snapshots_view()[j] == r.snapshots@[j]@);
            }
        }
        self.result = Some(r.duplicate());
        r
    }

    /// The last run's result, if there was one.
    pub fn result(&self) -> (r: Option<AlgorithmRunResult>)
        ensures
            match self.last_result() {
                Some(lr) => r is Some && r->Some_0.interval_period == lr.0 && r->Some_0.snapshots_view() == lr.1,
                None => r is None,
            },
    {
        match &self.result {
            Some(res) => Some(res.duplicate()),
            None => None,
        }
    }
}

} // verus!
