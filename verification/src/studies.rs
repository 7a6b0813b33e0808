//! Study definitions and the runoff orchestration engine.
//!
//! A study declares a named experiment: how many stochastic trials to run
//! per variation, and which fraction of the top performers survives into the
//! next, harder encounter tier. The runoff engine ranks scored variations,
//! retains the top fraction, and advances one tier at a time until the tiers
//! run out or no candidate survives. Trial execution itself is a caller
//! concern: the engine only decides, from a tier's scores, who goes on.

use vstd::prelude::*;
use vstd::multiset::Multiset;
use crate::equipment::Blueprint;
use crate::hero_builder::HeroClass;
use crate::skills::{HeroSkill, InnateSkill};
use crate::table::Table;

verus! {

broadcast use vstd::seq_lib::group_to_multiset_ensures;

/// The lifecycle of a study: created, then running, then finished, with no
/// reverse transitions.
#[derive(Clone, Copy, Debug, PartialEq, Eq, Structural)]
pub enum StudyStatus {
    Created,
    Running,
    Finished,
}

/// A study operation was invoked out of its lifecycle order.
#[derive(Clone, Copy, Debug, PartialEq, Eq, Structural)]
pub enum LifecycleError {
    NotCreated,
    NotRunning,
}

/// The static data tables needed to resolve every variation a study
/// generates.
#[derive(Clone, Debug, PartialEq)]
pub struct HeroBuilderInformation {
    pub bp_map: Table<Blueprint>,
    pub hero_classes: Table<HeroClass>,
    pub hero_skill_tier_1_name_map: Table<String>,
    pub hero_skill_map: Table<HeroSkill>,
    pub class_innate_skill_names_map: Table<String>,
    pub innate_skill_map: Table<InnateSkill>,
}

/// A plan for generating and ranking trials. The runoff threshold is in
/// hundredths of a percent: 10000 keeps everyone, disabling the cascade.
#[derive(Clone, Debug, PartialEq)]
pub struct Study {
    pub identifier: String,
    pub description: String,
    pub simulation_qty: i32,
    pub runoff_scoring_threshold: u32,
    pub status: StudyStatus,
    pub hero_builder_information: HeroBuilderInformation,
}

/// Builds a study in the `Created` state.
pub fn create_study(
    identifier: String,
    description: String,
    simulation_qty: i32,
    runoff_scoring_threshold: u32,
    hero_builder_information: HeroBuilderInformation,
) -> (r: Study)
    ensures
        r == (Study {
            identifier,
            description,
            simulation_qty,
            runoff_scoring_threshold,
            status: StudyStatus::Created,
            hero_builder_information,
        }),
{
    Study {
        identifier,
        description,
        simulation_qty,
        runoff_scoring_threshold,
        status: StudyStatus::Created,
        hero_builder_information,
    }
}

impl Study {
    /// Moves a created study into the running state; any other state is a
    /// lifecycle error and leaves the study untouched.
    pub fn start(&mut self) -> (r: Result<(), LifecycleError>)
        ensures
            old(self).status == StudyStatus::Created ==> r == Ok::<(), LifecycleError>(())
                && *final(self) == (Study { status: StudyStatus::Running, ..*old(self) }),
            old(self).status != StudyStatus::Created ==> r == Err::<(), LifecycleError>(
                LifecycleError::NotCreated,
            ) && *final(self) == *old(self),
    {
        match self.status {
            StudyStatus::Created => {
                self.status = StudyStatus::Running;
                Ok(())
            },
            _ => Err(LifecycleError::NotCreated),
        }
    }

    /// Moves a running study into the finished state; any other state is a
    /// lifecycle error and leaves the study untouched.
    pub fn finish(&mut self) -> (r: Result<(), LifecycleError>)
        ensures
            old(self).status == StudyStatus::Running ==> r == Ok::<(), LifecycleError>(())
                && *final(self) == (Study { status: StudyStatus::Finished, ..*old(self) }),
            old(self).status != StudyStatus::Running ==> r == Err::<(), LifecycleError>(
                LifecycleError::NotRunning,
            ) && *final(self) == *old(self),
    {
        match self.status {
            StudyStatus::Running => {
                self.status = StudyStatus::Finished;
                Ok(())
            },
            _ => Err(LifecycleError::NotRunning),
        }
    }
}

/// Runnable studies must have a run function.
pub trait Runnable {
    fn run(&mut self);
}

/// One variation together with its aggregate score for the current tier.
#[derive(Clone, Copy, Debug, PartialEq, Eq, Structural)]
pub struct ScoredVariation {
    pub variation: u64,
    pub score: u64,
}

/// Counts the successful outcomes among a variation's trials: the
/// per-variation aggregate score for a fixed trial count.
pub open spec fn spec_success_count(outcomes: Seq<bool>, i: int) -> int
    decreases outcomes.len() - i,
{
    if i < 0 || i >= outcomes.len() {
        0
    } else {
        (if outcomes[i] {
            1int
        } else {
            0int
        }) + spec_success_count(outcomes, i + 1)
    }
}

/// Counts how many trial outcomes succeeded.
pub fn aggregate_successes(outcomes: &Vec<bool>) -> (r: u64)
    requires
        outcomes@.len() <= 0xffff_ffff,
    ensures
        r as int == spec_success_count(outcomes@, 0),
        r <= outcomes@.len(),
{
    let mut count: u64 = 0;
    let mut i: usize = 0;
    while i < outcomes.len()
        invariant
            i <= outcomes@.len(),
            outcomes@.len() <= 0xffff_ffff,
            count <= i,
            spec_success_count(outcomes@, 0) == count + spec_success_count(outcomes@, i as int),
        decreases outcomes@.len() - i,
    {
        proof {
            lemma_success_count_bound(outcomes@, i as int + 1);
        }
        if outcomes[i] {
            count = count + 1;
        }
        i += 1;
    }
    proof {
        lemma_success_count_bound(outcomes@, 0);
    }
    count
}

/// A success count lies between zero and the number of remaining outcomes.
pub proof fn lemma_success_count_bound(outcomes: Seq<bool>, i: int)
    ensures
        0 <= spec_success_count(outcomes, i) <= (if outcomes.len() - i >= 0 {
            outcomes.len() - i
        } else {
            0
        }),
    decreases outcomes.len() - i,
{
    if 0 <= i < outcomes.len() {
        lemma_success_count_bound(outcomes, i + 1);
    }
}

/// True when the scores run highest to lowest.
pub open spec fn sorted_desc(s: Seq<ScoredVariation>) -> bool {
    forall|a: int, b: int| 0 <= a < b < s.len() ==> s[a].score >= s[b].score
}

/// Sorts scored variations by score, highest first. The result is a
/// permutation of the input.
pub fn rank_variations(v: Vec<ScoredVariation>) -> (r: Vec<ScoredVariation>)
    ensures
        sorted_desc(r@),
        r@.to_multiset() == v@.to_multiset(),
        r@.len() == v@.len(),
{
    let mut input = v;
    let mut out: Vec<ScoredVariation> = Vec::new();
    while input.len() > 0
        invariant
            out@.len() + input@.len() == v@.len(),
            out@.to_multiset().add(input@.to_multiset()) == v@.to_multiset(),
            sorted_desc(out@),
            forall|a: int, b: int|
                0 <= a < out@.len() && 0 <= b < input@.len() ==> out@[a].score
                    >= input@[b].score,
        decreases input@.len(),
    {
        let mut m: usize = 0;
        let mut i: usize = 1;
        while i < input.len()
            invariant
                input@.len() > 0,
                m < i,
                i <= input@.len(),
                forall|l: int| 0 <= l < i ==> input@[m as int].score >= input@[l].score,
            decreases input@.len() - i,
        {
            if input[i].score > input[m].score {
                m = i;
            }
            i += 1;
        }
        let ghost old_out = out@;
        let ghost old_input = input@;
        let x = input.remove(m);
        out.push(x);
        proof {
            assert(out@ == old_out.push(x));
            assert(input@ == old_input.remove(m as int));
            assert(out@.to_multiset() =~= old_out.to_multiset().insert(x));
            assert(input@.to_multiset() =~= old_input.to_multiset().remove(x));
            assert(old_input.to_multiset().count(x) > 0) by {
                assert(old_input[m as int] == x);
                assert(old_input.contains(x));
            }
            assert(out@.to_multiset().add(input@.to_multiset()) =~= old_out.to_multiset().add(
                old_input.to_multiset(),
            ));
            assert forall|a: int, b: int|
                0 <= a < out@.len() && 0 <= b < input@.len() implies out@[a].score
                >= input@[b].score by {
                if b < m {
                    assert(input@[b] == old_input[b]);
                } else {
                    assert(input@[b] == old_input[b + 1]);
                }
                if a < old_out.len() {
                    assert(out@[a] == old_out[a]);
                } else {
                    assert(out@[a] == x);
                }
            }
            assert forall|a: int, b: int| 0 <= a < b < out@.len() implies out@[a].score
                >= out@[b].score by {
                if b == out@.len() - 1 {
                    assert(out@[b] == x);
                    assert(old_input.contains(x));
                }
            }
        }
    }
    proof {
        assert(input@ =~= Seq::<ScoredVariation>::empty());
        assert(input@.to_multiset() =~= Multiset::<ScoredVariation>::empty());
        assert(out@.to_multiset() =~= out@.to_multiset().add(input@.to_multiset()));
    }
    out
}

/// How many of `n` ranked variations the runoff keeps: everyone at or above
/// the full threshold (10000, one hundred percent), else the floor of
/// `n * threshold / 10000`.
pub open spec fn spec_retain_count(n: int, threshold: int) -> int {
    if threshold >= 10000 {
        n
    } else {
        n * threshold / 10000
    }
}

/// The runoff never keeps more variations than it was given.
pub proof fn lemma_retain_count_le(n: int, threshold: int)
    requires
        n >= 0,
        threshold >= 0,
    ensures
        0 <= spec_retain_count(n, threshold) <= n,
{
    if threshold < 10000 {
        assert(0 <= n * threshold / 10000 <= n) by (nonlinear_arith)
            requires
                n >= 0,
                0 <= threshold < 10000,
        ;
    }
}

/// At the full threshold the runoff keeps exactly everyone.
pub proof fn lemma_retain_count_full(n: int, threshold: int)
    requires
        threshold >= 10000,
    ensures
        spec_retain_count(n, threshold) == n,
{
}

/// Computes the retain count.
pub fn retain_count(n: usize, threshold: u32) -> (r: usize)
    requires
        n < 0x1_0000_0000,
    ensures
        r as int == spec_retain_count(n as int, threshold as int),
        r <= n,
{
    proof {
        lemma_retain_count_le(n as int, threshold as int);
    }
    if threshold >= 10000 {
        n
    } else {
        proof {
            assert((n as u64) * (threshold as u64) < 0x1_0000_0000u64 * 0x1_0000_0000u64)
                by (nonlinear_arith)
                requires
                    (n as u64) < 0x1_0000_0000u64,
                    (threshold as u64) < 0x1_0000_0000u64,
            ;
        }
        let kept: u64 = (n as u64) * (threshold as u64) / 10000;
        kept as usize
    }
}

/// Ranks scored variations and keeps the top `threshold` fraction: the
/// retained set is a prefix of some descending ranking of the input, so
/// every retained score is at least every dropped score. At the full
/// threshold the result is exactly the input, reordered.
pub fn runoff_filter(v: Vec<ScoredVariation>, threshold: u32) -> (r: Vec<ScoredVariation>)
    requires
        v@.len() < 0x1_0000_0000,
    ensures
        sorted_desc(r@),
        r@.len() == spec_retain_count(v@.len() as int, threshold as int),
        r@.len() <= v@.len(),
        exists|w: Seq<ScoredVariation>|
            sorted_desc(w) && #[trigger] w.to_multiset() == v@.to_multiset() && r@ == w.take(
                r@.len() as int,
            ),
        threshold >= 10000 ==> r@.to_multiset() == v@.to_multiset(),
{
    let ghost orig = v@;
    let mut ranked = rank_variations(v);
    let n = ranked.len();
    let cnt = retain_count(n, threshold);
    let ghost w = ranked@;
    ranked.truncate(cnt);
    proof {
        assert(ranked@ == w.subrange(0, cnt as int));
        assert(ranked@ == w.take(cnt as int));
        assert(sorted_desc(ranked@)) by {
            assert(forall|a: int|
                0 <= a < ranked@.len() ==> #[trigger] ranked@[a] == w[a]);
        }
        if threshold >= 10000 {
            assert(cnt == n);
            assert(w.take(n as int) =~= w);
        }
        assert(sorted_desc(w) && w.to_multiset() == orig.to_multiset() && ranked@ == w.take(
            ranked@.len() as int,
        ));
    }
    ranked
}

/// The cascading elimination protocol: candidates face tiers in order; after
/// each tier's trials the top fraction survives into the next tier. One
/// tier is consumed per step, so the tiers processed always form a prefix of
/// the tier list and the protocol terminates.
#[derive(Clone, Debug, PartialEq)]
pub struct RunoffProtocol {
    pub tier_count: usize,
    pub next_tier: usize,
    pub candidates: Vec<ScoredVariation>,
}

impl RunoffProtocol {
    /// True when no further tier may be processed: the tiers ran out or no
    /// candidate survived.
    pub open spec fn spec_done(&self) -> bool {
        self.next_tier >= self.tier_count || self.candidates@.len() == 0
    }

    /// Starts the protocol before the first tier with the given candidates,
    /// scored zero until their first tier is recorded.
    pub fn new(tier_count: usize, candidates: Vec<ScoredVariation>) -> (r: RunoffProtocol)
        ensures
            r.tier_count == tier_count,
            r.next_tier == 0,
            r.candidates == candidates,
    {
        RunoffProtocol { tier_count, next_tier: 0, candidates }
    }

    /// Records one tier's scores: ranks them, keeps the top fraction as the
    /// surviving candidates, and advances to the next tier. The candidate
    /// set never grows, a full threshold preserves it exactly, and the tier
    /// index moves forward by exactly one.
    pub fn record_tier_results(&mut self, scores: Vec<ScoredVariation>, threshold: u32) -> (done:
        bool)
        requires
            old(self).next_tier < old(self).tier_count,
            scores@.len() == old(self).candidates@.len(),
            scores@.len() < 0x1_0000_0000,
        ensures
            final(self).tier_count == old(self).tier_count,
            final(self).next_tier == old(self).next_tier + 1,
            sorted_desc(final(self).candidates@),
            final(self).candidates@.len() == spec_retain_count(
                scores@.len() as int,
                threshold as int,
            ),
            final(self).candidates@.len() <= old(self).candidates@.len(),
            exists|w: Seq<ScoredVariation>|
                sorted_desc(w) && #[trigger] w.to_multiset() == scores@.to_multiset()
                    && final(self).candidates@ == w.take(final(self).candidates@.len() as int),
            threshold >= 10000 ==> final(self).candidates@.to_multiset()
                == scores@.to_multiset(),
            done == final(self).spec_done(),
    {
        let filtered = runoff_filter(scores, threshold);
        self.candidates = filtered;
        self.next_tier = self.next_tier + 1;
        self.next_tier >= self.tier_count || self.candidates.len() == 0
    }
}

} // verus!
