//! The store as one caller at a time sees it: a map from key to value, with
//! lookup and upsert, and the laws that follow.
//!
//! The functions are generic in the value so that they describe both the
//! contents of the store (key to feature vector) and its structural state
//! (key to record).

use vstd::prelude::*;

verus! {

/// What a lookup of `key` finds in `contents`.
pub open spec fn lookup<V>(contents: Map<Seq<char>, V>, key: Seq<char>) -> Option<V> {
    if contents.contains_key(key) {
        Some(contents[key])
    } else {
        None
    }
}

/// `contents` after `value` was bound to `key`: a new binding where the key
/// was absent, the value replaced where it was present.
pub open spec fn upsert<V>(contents: Map<Seq<char>, V>, key: Seq<char>, value: V) -> Map<
    Seq<char>,
    V,
> {
    contents.insert(key, value)
}

/// `contents` after every pair of `updates` was upserted, first to last.
pub open spec fn batch_upsert<V>(contents: Map<Seq<char>, V>, updates: Seq<(Seq<char>, V)>) -> Map<
    Seq<char>,
    V,
>
    decreases updates.len(),
{
    if updates.len() == 0 {
        contents
    } else {
        upsert(batch_upsert(contents, updates.drop_last()), updates.last().0, updates.last().1)
    }
}

/// Whether some pair of `updates` has the key `key`.
pub open spec fn mentions<V>(updates: Seq<(Seq<char>, V)>, key: Seq<char>) -> bool {
    exists|i: int| 0 <= i < updates.len() && (#[trigger] updates[i]).0 == key
}

/// The position of the last pair of `updates` with the key `key`, or -1.
pub open spec fn last_mention<V>(updates: Seq<(Seq<char>, V)>, key: Seq<char>) -> int
    decreases updates.len(),
{
    if updates.len() == 0 {
        -1
    } else if updates.last().0 == key {
        updates.len() - 1
    } else {
        last_mention(updates.drop_last(), key)
    }
}

/// `last_mention` is -1 exactly when no pair has the key, and otherwise
/// points at a pair with the key that no later pair with the key follows.
pub proof fn last_mention_is_last<V>(updates: Seq<(Seq<char>, V)>, key: Seq<char>)
    ensures
        -1 <= last_mention(updates, key) < updates.len(),
        last_mention(updates, key) == -1 <==> !mentions(updates, key),
        last_mention(updates, key) >= 0 ==> updates[last_mention(updates, key)].0 == key,
        forall|j: int|
            last_mention(updates, key) < j < updates.len() ==> (#[trigger] updates[j]).0 != key,
    decreases updates.len(),
{
    if updates.len() > 0 {
        let front = updates.drop_last();
        last_mention_is_last(front, key);
        assert forall|j: int| 0 <= j < front.len() implies front[j] == updates[j] by {}
        if updates.last().0 == key {
            assert(updates[updates.len() - 1].0 == key);
        } else {
            if mentions(updates, key) {
                let i = choose|i: int| 0 <= i < updates.len() && (#[trigger] updates[i]).0 == key;
                assert(front[i].0 == key);
            }
            if mentions(front, key) {
                let i = choose|i: int| 0 <= i < front.len() && (#[trigger] front[i]).0 == key;
                assert(updates[i].0 == key);
            }
            assert forall|j: int| last_mention(updates, key) < j < updates.len() implies (
            #[trigger] updates[j]).0 != key by {
                if j < front.len() {
                    assert(front[j].0 != key);
                }
            }
        }
    }
}

/// What a lookup finds after a batch: the value of the last pair with that
/// key, or, where no pair has the key, what was there before.
pub proof fn lookup_after_batch<V>(
    contents: Map<Seq<char>, V>,
    updates: Seq<(Seq<char>, V)>,
    key: Seq<char>,
)
    ensures
        lookup(batch_upsert(contents, updates), key) == if last_mention(updates, key) >= 0 {
            Some(updates[last_mention(updates, key)].1)
        } else {
            lookup(contents, key)
        },
    decreases updates.len(),
{
    if updates.len() > 0 {
        lookup_after_batch(contents, updates.drop_last(), key);
        last_mention_is_last(updates.drop_last(), key);
    }
}

/// The pairs of `updates` with the key `key`, in their order.
pub open spec fn upserts_of<V>(updates: Seq<(Seq<char>, V)>, key: Seq<char>) -> Seq<(Seq<char>, V)>
    decreases updates.len(),
{
    if updates.len() == 0 {
        updates
    } else if updates.last().0 == key {
        upserts_of(updates.drop_last(), key).push(updates.last())
    } else {
        upserts_of(updates.drop_last(), key)
    }
}

/// A lookup sees only the upserts of its own key: upserts of other keys,
/// wherever they fall in between, change nothing of what it finds.
pub proof fn lookup_sees_only_its_key<V>(
    contents: Map<Seq<char>, V>,
    updates: Seq<(Seq<char>, V)>,
    key: Seq<char>,
)
    ensures
        lookup(batch_upsert(contents, updates), key) == lookup(
            batch_upsert(contents, upserts_of(updates, key)),
            key,
        ),
    decreases updates.len(),
{
    if updates.len() > 0 {
        let front = updates.drop_last();
        lookup_sees_only_its_key(contents, front, key);
        if updates.last().0 == key {
            let own = upserts_of(front, key).push(updates.last());
            assert(own.drop_last() =~= upserts_of(front, key));
            assert(own.last() == updates.last());
        }
    }
}

/// A key that was never upserted is not found: in a store that starts
/// empty, a lookup of a key that no update names finds nothing.
pub proof fn never_upserted_is_not_found<V>(updates: Seq<(Seq<char>, V)>, key: Seq<char>)
    requires
        !mentions(updates, key),
    ensures
        lookup(batch_upsert(Map::empty(), updates), key) is None,
{
    last_mention_is_last(updates, key);
    lookup_after_batch(Map::empty(), updates, key);
}

/// Updates to other keys leave a key alone: a lookup of a key that no update
/// names finds after the batch what it found before.
pub proof fn other_keys_are_untouched<V>(
    contents: Map<Seq<char>, V>,
    updates: Seq<(Seq<char>, V)>,
    key: Seq<char>,
)
    requires
        !mentions(updates, key),
    ensures
        lookup(batch_upsert(contents, updates), key) == lookup(contents, key),
{
    last_mention_is_last(updates, key);
    lookup_after_batch(contents, updates, key);
}

/// An upserted value is found again, exactly: after a batch, a lookup of the
/// key of pair `i` finds the value of pair `i`, provided no later pair of the
/// batch has the same key.
pub proof fn upserted_is_found<V>(
    contents: Map<Seq<char>, V>,
    updates: Seq<(Seq<char>, V)>,
    i: int,
)
    requires
        0 <= i < updates.len(),
        forall|j: int| i < j < updates.len() ==> (#[trigger] updates[j]).0 != updates[i].0,
    ensures
        lookup(batch_upsert(contents, updates), updates[i].0) == Some(updates[i].1),
{
    let key = updates[i].0;
    last_mention_is_last(updates, key);
    lookup_after_batch(contents, updates, key);
    let last = last_mention(updates, key);
    if last < i {
        assert(updates[i].0 != key);
    }
    if last > i {
        assert(updates[last].0 != updates[i].0);
    }
}

/// A single upsert is found again, and overwrites: whatever was bound to the
/// key before, a lookup afterwards finds the new value.
pub proof fn upsert_then_lookup<V>(contents: Map<Seq<char>, V>, key: Seq<char>, value: V)
    ensures
        lookup(upsert(contents, key, value), key) == Some(value),
        forall|other: Seq<char>|
            other != key ==> lookup(upsert(contents, key, value), other) == lookup(contents, other),
{
}

/// Upsert is idempotent: the same pair applied twice leaves what applying it
/// once leaves.
pub proof fn upsert_is_idempotent<V>(contents: Map<Seq<char>, V>, key: Seq<char>, value: V)
    ensures
        upsert(upsert(contents, key, value), key, value) == upsert(contents, key, value),
{
    assert(upsert(upsert(contents, key, value), key, value) =~= upsert(contents, key, value));
}

/// A batch is idempotent: the same batch applied twice leaves what applying
/// it once leaves.
pub proof fn batch_upsert_is_idempotent<V>(
    contents: Map<Seq<char>, V>,
    updates: Seq<(Seq<char>, V)>,
)
    ensures
        batch_upsert(batch_upsert(contents, updates), updates) == batch_upsert(contents, updates),
{
    let once = batch_upsert(contents, updates);
    let twice = batch_upsert(once, updates);
    assert forall|key: Seq<char>| lookup(twice, key) == lookup(once, key) by {
        lookup_after_batch(contents, updates, key);
        lookup_after_batch(once, updates, key);
    }
    assert forall|key: Seq<char>| twice.contains_key(key) == once.contains_key(key) by {
        assert(lookup(twice, key) == lookup(once, key));
    }
    assert forall|key: Seq<char>| twice.contains_key(key) implies twice[key] == once[key] by {
        assert(lookup(twice, key) == lookup(once, key));
    }
    assert(twice =~= once);
}

/// Two upserts of one key leave one record, and the later one wins.
pub proof fn last_upsert_wins<V>(contents: Map<Seq<char>, V>, key: Seq<char>, first: V, second: V)
    ensures
        upsert(upsert(contents, key, first), key, second) == upsert(contents, key, second),
        upsert(upsert(contents, key, first), key, second).dom() == contents.dom().insert(key),
{
    assert(upsert(upsert(contents, key, first), key, second) =~= upsert(contents, key, second));
    assert(upsert(contents, key, second).dom() =~= contents.dom().insert(key));
}

/// Upserts of different keys do not observe each other: either order leaves
/// the same contents.
pub proof fn upserts_of_different_keys_commute<V>(
    contents: Map<Seq<char>, V>,
    key_a: Seq<char>,
    value_a: V,
    key_b: Seq<char>,
    value_b: V,
)
    requires
        key_a != key_b,
    ensures
        upsert(upsert(contents, key_a, value_a), key_b, value_b) == upsert(
            upsert(contents, key_b, value_b),
            key_a,
            value_a,
        ),
{
    assert(upsert(upsert(contents, key_a, value_a), key_b, value_b) =~= upsert(
        upsert(contents, key_b, value_b),
        key_a,
        value_a,
    ));
}

/// No key is ever removed: every key present before a batch is present
/// after it.
pub proof fn keys_only_grow<V>(contents: Map<Seq<char>, V>, updates: Seq<(Seq<char>, V)>)
    ensures
        contents.dom().subset_of(batch_upsert(contents, updates).dom()),
    decreases updates.len(),
{
    if updates.len() > 0 {
        keys_only_grow(contents, updates.drop_last());
    }
}

} // verus!
