//! A detector's behaviour over a whole run of observations.
//!
//! [`stored_after`] and [`changes_of`] replay a sequence of observed values at
//! the specification level, one digest comparison per value, exactly as the
//! contracts of `detect` and `detect_owned` describe a single call. The proof
//! functions here state the guarantees a caller can rely on across several
//! calls.

use crate::hashable::{hash_of, Hashable};
use vstd::prelude::*;

verus! {

/// The digest a detector stores after observing `vs` in order, having stored
/// `init` before.
pub open spec fn stored_after<T: Hashable>(init: u64, vs: Seq<T>) -> u64
    decreases vs.len(),
{
    if vs.len() == 0 {
        init
    } else {
        stored_after(hash_of(vs[0]), vs.drop_first())
    }
}

/// The change reports of a run, one per observed value: whether that value's
/// digest differed from the digest stored just before it.
pub open spec fn changes_of<T: Hashable>(init: u64, vs: Seq<T>) -> Seq<bool>
    decreases vs.len(),
{
    if vs.len() == 0 {
        Seq::empty()
    } else {
        seq![init != hash_of(vs[0])] + changes_of(hash_of(vs[0]), vs.drop_first())
    }
}

/// One observation is one step of the run model: the stored digest becomes
/// the value's digest, and a change is reported exactly when the two
/// differed — precisely what a single call of `detect` or `detect_owned`
/// ensures.
pub proof fn lemma_single_observation<T: Hashable>(init: u64, v: T)
    ensures
        stored_after(init, seq![v]) == hash_of(v),
        changes_of(init, seq![v]) == seq![init != hash_of(v)],
{
    reveal_with_fuel(stored_after, 2);
    reveal_with_fuel(changes_of, 2);
    assert(seq![v].drop_first() =~= Seq::<T>::empty());
    assert(changes_of(init, seq![v]) =~= seq![init != hash_of(v)]);
}

/// After any nonempty run, the stored digest is the digest of the last value
/// observed, whatever was stored before the run began.
pub proof fn lemma_stored_digest_is_last<T: Hashable>(init: u64, vs: Seq<T>)
    requires
        vs.len() > 0,
    ensures
        stored_after(init, vs) == hash_of(vs.last()),
    decreases vs.len(),
{
    if vs.len() == 1 {
        lemma_single_observation(init, vs[0]);
        assert(vs =~= seq![vs[0]]);
    } else {
        lemma_stored_digest_is_last(hash_of(vs[0]), vs.drop_first());
        assert(vs.drop_first().last() == vs.last());
    }
}

/// A detector looks untouched after a run only in the documented edge case
/// that the last observed value's digest is itself the sentinel 0.
pub proof fn lemma_touched_after_observation<T: Hashable>(vs: Seq<T>)
    requires
        vs.len() > 0,
        hash_of(vs.last()) != 0,
    ensures
        stored_after(0, vs) != 0,
{
    lemma_stored_digest_is_last(0, vs);
}

/// The first observation of a fresh detector reports a change, unless the
/// value's digest collides with the sentinel 0.
pub proof fn lemma_first_observation_changes<T: Hashable>(v: T)
    requires
        hash_of(v) != 0,
    ensures
        changes_of(0, seq![v]) == seq![true],
{
    lemma_single_observation(0u64, v);
    assert(seq![0u64 != hash_of(v)] =~= seq![true]);
}

/// Observing the same value twice on a fresh detector reports a change and
/// then no change, provided the value's digest is not the sentinel 0.
pub proof fn lemma_same_value_twice<T: Hashable>(v: T)
    requires
        hash_of(v) != 0,
    ensures
        changes_of(0, seq![v, v]) == seq![true, false],
{
    assert(seq![v, v].drop_first() =~= seq![v]);
    lemma_single_observation(hash_of(v), v);
    assert(changes_of(0, seq![v, v]) =~= seq![true, false]);
}

/// Two values with different digests each report a change when observed in
/// turn on a fresh detector, provided the first value's digest is not the
/// sentinel 0.
pub proof fn lemma_distinct_values_both_change<T: Hashable>(v1: T, v2: T)
    requires
        hash_of(v1) != 0,
        hash_of(v1) != hash_of(v2),
    ensures
        changes_of(0, seq![v1, v2]) == seq![true, true],
{
    assert(seq![v1, v2].drop_first() =~= seq![v2]);
    lemma_single_observation(hash_of(v1), v2);
    assert(changes_of(0, seq![v1, v2]) =~= seq![true, true]);
}

/// A run made of `n` copies of one value.
pub open spec fn repeated<T>(v: T, n: nat) -> Seq<T> {
    Seq::new(n, |j: int| v)
}

/// Once a value's digest is stored, observing that same value any number of
/// times reports no change at all.
proof fn lemma_repeat_after_first<T: Hashable>(v: T, n: nat)
    ensures
        changes_of(hash_of(v), repeated(v, n)) == Seq::new(n, |j: int| false),
    decreases n,
{
    let vs = repeated(v, n);
    if n == 0 {
        assert(changes_of(hash_of(v), vs) =~= Seq::new(0, |j: int| false));
    } else {
        lemma_repeat_after_first(v, (n - 1) as nat);
        assert(vs.drop_first() =~= repeated(v, (n - 1) as nat));
        assert(changes_of(hash_of(v), vs) =~= Seq::new(n, |j: int| false));
    }
}

/// Repeating one value N times on a fresh detector reports a change exactly
/// once, at the first observation, and no change the N−1 times after it,
/// provided the value's digest is not the sentinel 0.
pub proof fn lemma_repeated_value_changes_once<T: Hashable>(v: T, n: nat)
    requires
        n >= 1,
        hash_of(v) != 0,
    ensures
        changes_of(0, repeated(v, n)).len() == n,
        changes_of(0, repeated(v, n))[0] == true,
        forall|i: int| 1 <= i < n ==> !(#[trigger] changes_of(0, repeated(v, n))[i]),
{
    let vs = repeated(v, n);
    lemma_repeat_after_first(v, (n - 1) as nat);
    assert(vs.drop_first() =~= repeated(v, (n - 1) as nat));
    assert(changes_of(0, vs) =~= seq![true] + Seq::new((n - 1) as nat, |j: int| false));
}

} // verus!
