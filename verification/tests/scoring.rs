use feature_store::scoring::{
    check_arity, conclude, create_feature, fetch_local, fetch_of_lookup, score_fetched,
    score_local, ArityMismatch,
    FeatureFetch, ScoringOutcome,
};
use feature_store::store::{FeatureStore, FeatureStoreReadError};
use std::cell::Cell;

fn sum_scorer(features: &Vec<f32>) -> Option<Vec<f32>> {
    Some(vec![features.iter().sum::<f32>(), -1.0])
}

#[test]
fn found_vector_of_the_right_length_is_scored() {
    let outcome = score_fetched(FeatureFetch::Found(vec![0.5f32, 0.25]), 2, sum_scorer);
    assert_eq!(outcome, ScoringOutcome::Score(0.75f32));
}

#[test]
fn length_mismatch_is_invalid_input() {
    let calls = Cell::new(0u32);
    let scorer = |features: &Vec<f32>| {
        calls.set(calls.get() + 1);
        sum_scorer(features)
    };
    let store: FeatureStore<f32> = FeatureStore::new();
    store.batch_update_features(vec![("f1".to_string(), vec![0.1, 0.2])]);
    assert_eq!(score_local(&store, "f1", 3, &scorer), ScoringOutcome::InvalidInput);
    assert_eq!(score_local(&store, "f1", 1, &scorer), ScoringOutcome::InvalidInput);
    assert_eq!(score_local(&store, "f1", 0, &scorer), ScoringOutcome::InvalidInput);
    assert_eq!(calls.get(), 0);
    let too_long: ScoringOutcome<f32> =
        score_fetched(FeatureFetch::Found(vec![1.0f32, 2.0, 3.0]), 2, &scorer);
    assert_eq!(too_long, ScoringOutcome::InvalidInput);
    assert_eq!(calls.get(), 0);
}

#[test]
fn unreachable_feature_source_is_upstream_unavailable() {
    let calls = Cell::new(0u32);
    let scorer = |features: &Vec<f32>| {
        calls.set(calls.get() + 1);
        sum_scorer(features)
    };
    let outcome = score_fetched(FeatureFetch::Unavailable, 2, &scorer);
    assert_eq!(outcome, ScoringOutcome::UpstreamUnavailable);
    assert_eq!(calls.get(), 0);
}

#[test]
fn unreadable_payload_is_upstream_malformed() {
    let outcome = score_fetched(FeatureFetch::Malformed, 2, sum_scorer);
    assert_eq!(outcome, ScoringOutcome::UpstreamMalformed);
}

#[test]
fn missing_feature_is_no_result() {
    let outcome = score_fetched(FeatureFetch::NotFound, 2, sum_scorer);
    assert_eq!(outcome, ScoringOutcome::NoResult);
    let store: FeatureStore<f32> = FeatureStore::new();
    assert_eq!(score_local(&store, "f1", 2, sum_scorer), ScoringOutcome::NoResult);
}

#[test]
fn failing_scorer_is_an_internal_fault() {
    let refuses = |_: &Vec<f32>| -> Option<Vec<f32>> { None };
    let predicts_nothing = |_: &Vec<f32>| -> Option<Vec<f32>> { Some(Vec::new()) };
    assert_eq!(
        score_fetched(FeatureFetch::Found(vec![1.0f32]), 1, refuses),
        ScoringOutcome::InternalFault
    );
    assert_eq!(
        score_fetched(FeatureFetch::Found(vec![1.0f32]), 1, predicts_nothing),
        ScoringOutcome::InternalFault
    );
}

#[test]
fn scorer_is_invoked_once_on_the_fetched_vector() {
    let calls = Cell::new(0u32);
    let scorer = |features: &Vec<u32>| {
        calls.set(calls.get() + 1);
        assert_eq!(features, &vec![4, 5, 6]);
        Some(vec![features[2] * 10])
    };
    let outcome = score_fetched(FeatureFetch::Found(vec![4u32, 5, 6]), 3, &scorer);
    assert_eq!(outcome, ScoringOutcome::Score(60u32));
    assert_eq!(calls.get(), 1);
}

#[test]
fn zero_arity_model_scores_the_empty_vector() {
    let scorer = |_: &Vec<u32>| Some(vec![42u32]);
    assert_eq!(
        score_fetched(FeatureFetch::Found(Vec::new()), 0, scorer),
        ScoringOutcome::Score(42u32)
    );
}

#[test]
fn conclude_takes_the_first_value() {
    assert_eq!(conclude(Some(vec![0.25f32, 0.75])), ScoringOutcome::Score(0.25f32));
    assert_eq!(conclude(Some(vec![7u32])), ScoringOutcome::Score(7u32));
    assert_eq!(conclude(Some(Vec::<u32>::new())), ScoringOutcome::InternalFault);
    assert_eq!(conclude(None::<Vec<u32>>), ScoringOutcome::InternalFault);
}

#[test]
fn check_arity_reports_both_lengths() {
    assert_eq!(check_arity(&vec![1u32, 2], 2), Ok(()));
    assert_eq!(check_arity(&Vec::<u32>::new(), 0), Ok(()));
    assert_eq!(check_arity(&vec![1u32, 2], 3), Err(ArityMismatch { expected: 3, actual: 2 }));
    assert_eq!(check_arity(&vec![1u32, 2], 0), Err(ArityMismatch { expected: 0, actual: 2 }));
    assert_eq!(
        check_arity(&Vec::<u32>::new(), 30),
        Err(ArityMismatch { expected: 30, actual: 0 })
    );
}

#[test]
fn local_fetch_finds_or_finds_nothing() {
    let store: FeatureStore<u32> = FeatureStore::new();
    store.upsert("f1".to_string(), vec![1, 2]);
    assert_eq!(fetch_local(&store, "f1"), FeatureFetch::Found(vec![1, 2]));
    assert_eq!(fetch_local(&store, "f2"), FeatureFetch::NotFound);
}

#[test]
fn same_vector_and_scorer_give_the_same_score() {
    let store: FeatureStore<f32> = FeatureStore::new();
    store.upsert("f1".to_string(), vec![0.1, 0.2, 0.3]);
    let first = score_local(&store, "f1", 3, sum_scorer);
    let second = score_local(&store, "f1", 3, sum_scorer);
    assert_eq!(first, second);
    assert_eq!(first, ScoringOutcome::Score(0.1f32 + 0.2 + 0.3));
    let direct = score_fetched(FeatureFetch::Found(vec![0.1f32, 0.2, 0.3]), 3, sum_scorer);
    assert_eq!(direct, first);
}

#[test]
fn scoring_follows_the_latest_upsert() {
    let store: FeatureStore<f32> = FeatureStore::new();
    store.upsert("f1".to_string(), vec![1.0, 2.0]);
    assert_eq!(score_local(&store, "f1", 2, sum_scorer), ScoringOutcome::Score(3.0f32));
    store.upsert("f1".to_string(), vec![9.0, 9.0]);
    assert_eq!(score_local(&store, "f1", 2, sum_scorer), ScoringOutcome::Score(18.0f32));
    store.upsert("f1".to_string(), vec![9.0]);
    assert_eq!(score_local(&store, "f1", 2, sum_scorer), ScoringOutcome::InvalidInput);
}

#[test]
fn create_feature_checks_the_arity_first() {
    let store: FeatureStore<u32> = FeatureStore::new();
    assert_eq!(create_feature(&store, "f1".to_string(), vec![1, 2, 3], 3), Ok(()));
    assert_eq!(store.get_feature("f1"), Ok(vec![1, 2, 3]));
    assert_eq!(
        create_feature(&store, "f2".to_string(), vec![1, 2], 3),
        Err(ArityMismatch { expected: 3, actual: 2 })
    );
    assert_eq!(store.get_feature("f2"), Err(FeatureStoreReadError::KeyDoesNotExists));
    assert_eq!(
        create_feature(&store, "f1".to_string(), vec![1, 2, 3, 4], 3),
        Err(ArityMismatch { expected: 3, actual: 4 })
    );
    assert_eq!(store.get_feature("f1"), Ok(vec![1, 2, 3]));
    assert_eq!(create_feature(&store, "f1".to_string(), vec![7, 8, 9], 3), Ok(()));
    assert_eq!(store.get_feature("f1"), Ok(vec![7, 8, 9]));
}

#[test]
fn lookup_result_becomes_a_fetch() {
    assert_eq!(fetch_of_lookup(Ok(vec![0.5f32, 1.5])), FeatureFetch::Found(vec![0.5, 1.5]));
    assert_eq!(fetch_of_lookup(Ok(Vec::<u32>::new())), FeatureFetch::Found(Vec::new()));
    assert_eq!(
        fetch_of_lookup::<u32>(Err(FeatureStoreReadError::KeyDoesNotExists)),
        FeatureFetch::NotFound
    );
}
