//! The change detector itself.

use crate::hashable::{hash_of, Hashable};
use core::marker::PhantomData;
use std::collections::hash_map::DefaultHasher;
use std::hash::Hasher;
use vstd::prelude::*;

verus! {

/// Detects whether a value differs from the last one observed, by comparing
/// 64-bit digests instead of keeping the previous value.
///
/// The detector stores only the digest of the most recent value; its view is
/// that stored digest. A fresh detector stores the sentinel digest 0, which
/// doubles as the "never used" marker: a real value whose digest happens to be
/// 0 is indistinguishable from no value at all. That ambiguity is accepted,
/// not corrected.
///
/// The type parameter locks a detector to one value type, so that digests of
/// unrelated types are never compared by accident; it carries no run-time
/// data.
pub struct ChangeDetector<T> {
    hash: u64,
    marker: PhantomData<T>,
}

impl<T> View for ChangeDetector<T> {
    type V = u64;

    /// The stored digest of the most recently observed value, or 0 if none.
    closed spec fn view(&self) -> u64 {
        self.hash
    }
}

impl<T: Hashable> ChangeDetector<T> {
    /// A fresh detector that has observed nothing: its stored digest is the
    /// sentinel 0.
    pub fn new() -> (d: ChangeDetector<T>)
        ensures
            d@ == 0,
    {
        ChangeDetector { hash: 0, marker: PhantomData }
    }

    /// Whether no detection call has been made yet.
    ///
    /// Reports true exactly when the stored digest is still the sentinel 0;
    /// a value whose digest is 0 therefore also leaves the detector looking
    /// untouched. That edge case is documented and accepted.
    pub fn untouched(&self) -> (r: bool)
        ensures
            r == (self@ == 0),
    {
        self.hash == 0
    }

    /// The stored digest, verbatim.
    pub fn hash(&self) -> (r: u64)
        ensures
            r == self@,
    {
        self.hash
    }

    /// Observe a borrowed value. The stored digest is overwritten with the
    /// value's digest unconditionally; the value is handed back exactly when
    /// its digest differed from the stored one, signalling a change.
    pub fn detect<'a>(&mut self, value: &'a T) -> (r: Option<&'a T>)
        ensures
            final(self)@ == hash_of(*value),
            (r is Some) == (old(self)@ != hash_of(*value)),
            r matches Some(returned) ==> returned == value,
    {
        let mut hasher = DefaultHasher::new();
        value.feed(&mut hasher);
        let hash = hasher.finish();
        proof {
            assert(Seq::<Seq<u8>>::empty() + value.writes() =~= value.writes());
        }
        let change = self.hash != hash;
        self.hash = hash;
        if change {
            Some(value)
        } else {
            None
        }
    }

    /// Observe an owned value: the same comparison and overwrite as `detect`,
    /// but ownership of the value is returned to the caller on a change and
    /// the value is dropped on none. Useful to gate work on values that are
    /// costly to clone.
    pub fn detect_owned(&mut self, value: T) -> (r: Option<T>)
        ensures
            final(self)@ == hash_of(value),
            (r is Some) == (old(self)@ != hash_of(value)),
            r matches Some(returned) ==> returned == value,
    {
        let mut hasher = DefaultHasher::new();
        value.feed(&mut hasher);
        let hash = hasher.finish();
        proof {
            assert(Seq::<Seq<u8>>::empty() + value.writes() =~= value.writes());
        }
        let change = self.hash != hash;
        self.hash = hash;
        if change {
            Some(value)
        } else {
            None
        }
    }
}

} // verus!
