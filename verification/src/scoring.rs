//! The scoring protocol: obtain a feature vector, check it against the
//! model's arity, invoke the scorer, and report exactly one outcome.
//!
//! The scorer is a capability handed in by the caller: a function from a
//! feature vector to a prediction. Each request is a single attempt; nothing
//! here retries.

use crate::store::{FeatureStore, FeatureStoreReadError};
use vstd::prelude::*;

verus! {

/// How an attempt to obtain a feature vector ended.
#[derive(Debug, PartialEq)]
pub enum FeatureFetch<T> {
    /// The vector bound to the requested key.
    Found(Vec<T>),
    /// No record is bound to the key.
    NotFound,
    /// The feature source could not be reached within the caller's bound.
    Unavailable,
    /// The feature source answered with a payload that could not be read.
    Malformed,
}

/// The outcome of one scoring request.
#[derive(Debug, PartialEq)]
pub enum ScoringOutcome<S> {
    /// The scorer's output for the requested key.
    Score(S),
    /// No feature vector is bound to the key. A normal, empty outcome.
    NoResult,
    /// The feature vector does not have the length the model expects.
    InvalidInput,
    /// The feature source could not be reached.
    UpstreamUnavailable,
    /// The feature source answered with an unreadable payload.
    UpstreamMalformed,
    /// The scorer failed on a vector of the right length.
    InternalFault,
}

/// A feature vector whose length is not the model's arity.
#[derive(Clone, Copy, Debug, PartialEq, Eq, Structural)]
pub struct ArityMismatch {
    /// The length the model expects.
    pub expected: usize,
    /// The length of the vector.
    pub actual: usize,
}

/// A prediction as a value: the scorer's numbers where it succeeded.
pub open spec fn prediction_view<S>(prediction: Option<Vec<S>>) -> Option<Seq<S>> {
    match prediction {
        Some(values) => Some(values@),
        None => None,
    }
}

/// The outcome that a prediction stands for: its first value, or a fault
/// where the scorer failed or predicted nothing.
pub open spec fn outcome_of_prediction<S>(prediction: Option<Seq<S>>) -> ScoringOutcome<S> {
    match prediction {
        Some(values) => if values.len() > 0 {
            ScoringOutcome::Score(values[0])
        } else {
            ScoringOutcome::InternalFault
        },
        None => ScoringOutcome::InternalFault,
    }
}

/// Whether `outcome` is what the protocol reports for `fetch`, given the
/// model's `arity` and what `scorer` may return.
pub open spec fn is_outcome<T, S, F: Fn(&Vec<T>) -> Option<Vec<S>>>(
    scorer: F,
    fetch: FeatureFetch<T>,
    arity: usize,
    outcome: ScoringOutcome<S>,
) -> bool {
    match fetch {
        FeatureFetch::Found(features) => if features@.len() != arity {
            outcome == ScoringOutcome::<S>::InvalidInput
        } else {
            exists|prediction: Option<Vec<S>>|
                #[trigger] call_ensures(scorer, (&features,), prediction) && outcome
                    == outcome_of_prediction(prediction_view(prediction))
        },
        FeatureFetch::NotFound => outcome == ScoringOutcome::<S>::NoResult,
        FeatureFetch::Unavailable => outcome == ScoringOutcome::<S>::UpstreamUnavailable,
        FeatureFetch::Malformed => outcome == ScoringOutcome::<S>::UpstreamMalformed,
    }
}

/// Whether two fetches ended alike: in the same way and, where a vector was
/// found, with the same numbers.
pub open spec fn same_fetch<T>(first: FeatureFetch<T>, second: FeatureFetch<T>) -> bool {
    match (first, second) {
        (FeatureFetch::Found(a), FeatureFetch::Found(b)) => a@ == b@,
        (FeatureFetch::NotFound, FeatureFetch::NotFound) => true,
        (FeatureFetch::Unavailable, FeatureFetch::Unavailable) => true,
        (FeatureFetch::Malformed, FeatureFetch::Malformed) => true,
        _ => false,
    }
}

/// Whether `scorer` answers the same numbers with the same prediction.
pub open spec fn is_deterministic<T, S, F: Fn(&Vec<T>) -> Option<Vec<S>>>(scorer: F) -> bool {
    forall|a: &Vec<T>, b: &Vec<T>, p: Option<Vec<S>>, q: Option<Vec<S>>|
        a@ == b@ && #[trigger] call_ensures(scorer, (a,), p) && #[trigger] call_ensures(
            scorer,
            (b,),
            q,
        ) ==> prediction_view(p) == prediction_view(q)
}

/// Scoring is deterministic where the scorer is: the same feature vector
/// and the same scorer always give the same outcome.
pub proof fn scoring_is_deterministic<T, S, F: Fn(&Vec<T>) -> Option<Vec<S>>>(
    scorer: F,
    arity: usize,
    first_fetch: FeatureFetch<T>,
    first: ScoringOutcome<S>,
    second_fetch: FeatureFetch<T>,
    second: ScoringOutcome<S>,
)
    requires
        is_deterministic::<T, S, F>(scorer),
        same_fetch(first_fetch, second_fetch),
        is_outcome(scorer, first_fetch, arity, first),
        is_outcome(scorer, second_fetch, arity, second),
    ensures
        first == second,
{
    if let (FeatureFetch::Found(a), FeatureFetch::Found(b)) = (first_fetch, second_fetch) {
        if a@.len() == arity {
            let p = choose|p: Option<Vec<S>>|
                #[trigger] call_ensures(scorer, (&a,), p) && first == outcome_of_prediction(
                    prediction_view(p),
                );
            let q = choose|q: Option<Vec<S>>|
                #[trigger] call_ensures(scorer, (&b,), q) && second == outcome_of_prediction(
                    prediction_view(q),
                );
            assert(prediction_view(p) == prediction_view(q));
        }
    }
}

/// Checks `features` against the model's arity.
pub fn check_arity<T>(features: &Vec<T>, arity: usize) -> (checked: Result<(), ArityMismatch>)
    ensures
        checked is Ok <==> features@.len() == arity,
        checked is Err ==> checked == Err::<(), _>(
            ArityMismatch { expected: arity, actual: features@.len() as usize },
        ),
{
    if features.len() == arity {
        Ok(())
    } else {
        Err(ArityMismatch { expected: arity, actual: features.len() })
    }
}

/// The outcome that the scorer's answer stands for: the first value of the
/// prediction, or `InternalFault` where the scorer failed or predicted
/// nothing.
pub fn conclude<S: Copy>(prediction: Option<Vec<S>>) -> (outcome: ScoringOutcome<S>)
    ensures
        outcome == outcome_of_prediction(prediction_view(prediction)),
{
    match prediction {
        Some(values) => if values.len() > 0 {
            ScoringOutcome::Score(values[0])
        } else {
            ScoringOutcome::InternalFault
        },
        None => ScoringOutcome::InternalFault,
    }
}

/// Scores what a fetch brought: validates the vector against `arity`,
/// invokes `scorer` once on a valid vector, and reports the outcome. The
/// scorer is not invoked on anything but a vector of length `arity`.
pub fn score_fetched<T, S: Copy, F: Fn(&Vec<T>) -> Option<Vec<S>>>(
    fetch: FeatureFetch<T>,
    arity: usize,
    scorer: F,
) -> (outcome: ScoringOutcome<S>)
    requires
        forall|features: &Vec<T>| features@.len() == arity ==> call_requires(scorer, (features,)),
    ensures
        is_outcome(scorer, fetch, arity, outcome),
{
    match fetch {
        FeatureFetch::Found(features) => {
            match check_arity(&features, arity) {
                Ok(()) => {
                    let prediction = scorer(&features);
                    let ghost returned = prediction;
                    let outcome = conclude(prediction);
                    assert(call_ensures(scorer, (&features,), returned) && outcome
                        == outcome_of_prediction(prediction_view(returned)));
                    outcome
                },
                Err(_) => ScoringOutcome::InvalidInput,
            }
        },
        FeatureFetch::NotFound => ScoringOutcome::NoResult,
        FeatureFetch::Unavailable => ScoringOutcome::UpstreamUnavailable,
        FeatureFetch::Malformed => ScoringOutcome::UpstreamMalformed,
    }
}

/// Fetches from a store in this process. Such a fetch finds the vector or
/// finds nothing; it is never unavailable or malformed.
pub fn fetch_local<T: Copy>(store: &FeatureStore<T>, feature_id: &str) -> (fetch: FeatureFetch<T>)
    ensures
        fetch is Found || fetch is NotFound,
{
    fetch_of_lookup(store.get_feature(feature_id))
}

/// What a lookup in a store stands for as a fetch: the vector it found, or
/// `NotFound` where the key does not exist.
pub fn fetch_of_lookup<T>(lookup: Result<Vec<T>, FeatureStoreReadError>) -> (fetch: FeatureFetch<T>)
    ensures
        match lookup {
            Ok(features) => fetch == FeatureFetch::Found(features),
            Err(_) => fetch == FeatureFetch::<T>::NotFound,
        },
{
    match lookup {
        Ok(features) => FeatureFetch::Found(features),
        Err(FeatureStoreReadError::KeyDoesNotExists) => FeatureFetch::NotFound,
    }
}

/// Scores the vector that `store` binds to `feature_id`.
pub fn score_local<T: Copy, S: Copy, F: Fn(&Vec<T>) -> Option<Vec<S>>>(
    store: &FeatureStore<T>,
    feature_id: &str,
    arity: usize,
    scorer: F,
) -> (outcome: ScoringOutcome<S>)
    requires
        forall|features: &Vec<T>| features@.len() == arity ==> call_requires(scorer, (features,)),
    ensures
        exists|fetch: FeatureFetch<T>|
            (fetch is Found || fetch is NotFound) && #[trigger] is_outcome(
                scorer,
                fetch,
                arity,
                outcome,
            ),
{
    let fetch = fetch_local(store, feature_id);
    let ghost fetched = fetch;
    let outcome = score_fetched(fetch, arity, scorer);
    assert(is_outcome(scorer, fetched, arity, outcome));
    outcome
}

/// Creates one record in `store`, provided `features` has the model's arity.
/// A vector of another length is refused and the store is left alone.
pub fn create_feature<T: Copy>(
    store: &FeatureStore<T>,
    feature_id: String,
    features: Vec<T>,
    arity: usize,
) -> (created: Result<(), ArityMismatch>)
    ensures
        created is Ok <==> features@.len() == arity,
        created is Err ==> created == Err::<(), _>(
            ArityMismatch { expected: arity, actual: features@.len() as usize },
        ),
{
    match check_arity(&features, arity) {
        Ok(()) => {
            store.upsert(feature_id, features);
            Ok(())
        },
        Err(mismatch) => Err(mismatch),
    }
}

} // verus!
