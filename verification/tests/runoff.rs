use hero_core::equipment::Blueprint;
use hero_core::hero_builder::HeroClass;
use hero_core::skills::{HeroSkill, InnateSkill};
use hero_core::studies::{
    LifecycleError, RunoffProtocol, ScoredVariation, StudyStatus, aggregate_successes,
    create_study, rank_variations, retain_count, runoff_filter,
};
use hero_core::table::Table;

fn sv(variation: u64, score: u64) -> ScoredVariation {
    ScoredVariation { variation, score }
}

fn empty_info() -> hero_core::studies::HeroBuilderInformation {
    hero_core::studies::HeroBuilderInformation {
        bp_map: Table::<Blueprint>::new(),
        hero_classes: Table::<HeroClass>::new(),
        hero_skill_tier_1_name_map: Table::<String>::new(),
        hero_skill_map: Table::<HeroSkill>::new(),
        class_innate_skill_names_map: Table::<String>::new(),
        innate_skill_map: Table::<InnateSkill>::new(),
    }
}

#[test]
fn study_lifecycle_is_monotonic() {
    let mut study = create_study(
        String::from("study-1"),
        String::from("ranks two builds"),
        100,
        5000,
        empty_info(),
    );
    assert_eq!(study.status, StudyStatus::Created);
    assert_eq!(study.identifier, "study-1");
    assert_eq!(study.simulation_qty, 100);
    assert_eq!(study.runoff_scoring_threshold, 5000);
    assert!(study.finish().is_err());
    assert_eq!(study.status, StudyStatus::Created);
    assert!(study.start().is_ok());
    assert_eq!(study.status, StudyStatus::Running);
    assert_eq!(study.start(), Err(LifecycleError::NotCreated));
    assert_eq!(study.status, StudyStatus::Running);
    assert!(study.finish().is_ok());
    assert_eq!(study.status, StudyStatus::Finished);
    assert_eq!(study.finish(), Err(LifecycleError::NotRunning));
    assert_eq!(study.status, StudyStatus::Finished);
}

#[test]
fn aggregate_counts_successes() {
    let outcomes = vec![true, false, true, true, false];
    assert_eq!(aggregate_successes(&outcomes), 3);
    let none: Vec<bool> = Vec::new();
    assert_eq!(aggregate_successes(&none), 0);
}

#[test]
fn ranking_sorts_by_score_descending() {
    let v = vec![sv(1, 10), sv(2, 50), sv(3, 30), sv(4, 50), sv(5, 0)];
    let ranked = rank_variations(v);
    let scores: Vec<u64> = ranked.iter().map(|x| x.score).collect();
    assert_eq!(scores, vec![50, 50, 30, 10, 0]);
    let mut ids: Vec<u64> = ranked.iter().map(|x| x.variation).collect();
    ids.sort();
    assert_eq!(ids, vec![1, 2, 3, 4, 5]);
}

#[test]
fn retain_count_floors_and_caps() {
    assert_eq!(retain_count(10, 5000), 5);
    assert_eq!(retain_count(10, 10000), 10);
    assert_eq!(retain_count(10, 20000), 10);
    assert_eq!(retain_count(10, 3333), 3);
    assert_eq!(retain_count(0, 5000), 0);
    assert_eq!(retain_count(7, 0), 0);
}

// A 50-percent threshold on ten equally scored variations keeps exactly the
// top half.
#[test]
fn half_threshold_keeps_five_of_ten() {
    let v: Vec<ScoredVariation> = (0..10).map(|i| sv(i, 7)).collect();
    let kept = runoff_filter(v, 5000);
    assert_eq!(kept.len(), 5);
    for x in kept.iter() {
        assert_eq!(x.score, 7);
    }
}

// A threshold of 100 percent retains exactly the input set: filtering is
// idempotent there.
#[test]
fn full_threshold_retains_everyone() {
    let v = vec![sv(1, 3), sv(2, 9), sv(3, 6)];
    let kept = runoff_filter(v.clone(), 10000);
    assert_eq!(kept.len(), 3);
    let mut ids: Vec<u64> = kept.iter().map(|x| x.variation).collect();
    ids.sort();
    assert_eq!(ids, vec![1, 2, 3]);
    let again = runoff_filter(kept.clone(), 10000);
    let mut again_ids: Vec<u64> = again.iter().map(|x| x.variation).collect();
    again_ids.sort();
    assert_eq!(again_ids, vec![1, 2, 3]);
}

#[test]
fn filter_keeps_top_performers() {
    let v = vec![sv(1, 10), sv(2, 50), sv(3, 30), sv(4, 40), sv(5, 0), sv(6, 20)];
    let kept = runoff_filter(v, 5000);
    assert_eq!(kept.len(), 3);
    let mut ids: Vec<u64> = kept.iter().map(|x| x.variation).collect();
    ids.sort();
    assert_eq!(ids, vec![2, 3, 4]);
}

// The candidate set never grows between tiers, and each recorded tier
// advances the protocol by exactly one tier.
#[test]
fn protocol_consumes_tiers_in_order() {
    let initial: Vec<ScoredVariation> = (0..8).map(|i| sv(i, 0)).collect();
    let mut protocol = RunoffProtocol::new(3, initial);
    assert_eq!(protocol.next_tier, 0);

    let tier1: Vec<ScoredVariation> = (0..8).map(|i| sv(i, i)).collect();
    let done = protocol.record_tier_results(tier1, 5000);
    assert!(!done);
    assert_eq!(protocol.next_tier, 1);
    assert_eq!(protocol.candidates.len(), 4);
    let mut survivors: Vec<u64> = protocol.candidates.iter().map(|x| x.variation).collect();
    survivors.sort();
    assert_eq!(survivors, vec![4, 5, 6, 7]);

    let tier2: Vec<ScoredVariation> = vec![sv(4, 2), sv(5, 9), sv(6, 4), sv(7, 1)];
    let done = protocol.record_tier_results(tier2, 5000);
    assert!(!done);
    assert_eq!(protocol.next_tier, 2);
    assert_eq!(protocol.candidates.len(), 2);

    let tier3: Vec<ScoredVariation> = vec![sv(5, 1), sv(6, 3)];
    let done = protocol.record_tier_results(tier3, 10000);
    assert!(done);
    assert_eq!(protocol.next_tier, 3);
    assert_eq!(protocol.candidates.len(), 2);
}

#[test]
fn protocol_stops_when_no_candidate_survives() {
    let initial: Vec<ScoredVariation> = vec![sv(1, 0), sv(2, 0), sv(3, 0)];
    let mut protocol = RunoffProtocol::new(5, initial);
    let scores = vec![sv(1, 4), sv(2, 6), sv(3, 5)];
    // A threshold under a third floors to zero survivors out of three.
    let done = protocol.record_tier_results(scores, 3000);
    assert!(done);
    assert_eq!(protocol.next_tier, 1);
    assert_eq!(protocol.candidates.len(), 0);
}
