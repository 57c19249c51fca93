//! Values that can be digested by a `DefaultHasher`.
//!
//! A [`Hashable`] value renders itself as a fixed sequence of byte-string
//! writes, described exactly by its `writes` specification. Its 64-bit digest,
//! [`hash_of`], is what a fresh hasher returns after those writes, so the
//! digest is a function of the value alone: equal values always produce equal
//! digests within one run.

use std::collections::hash_map::DefaultHasher;
use std::hash::Hasher;
use vstd::prelude::*;
use vstd::std_specs::hash::DefaultHasherAdditionalSpecFns;
use vstd::string::StringSliceAdditionalSpecFns;
use vstd::utf8::encode_utf8;

verus! {

/// The little-endian byte rendering of a 64-bit word, as one hasher write.
pub open spec fn u64_le_bytes(x: u64) -> Seq<u8> {
    seq![
        (x & 0xff) as u8,
        ((x >> 8) & 0xff) as u8,
        ((x >> 16) & 0xff) as u8,
        ((x >> 24) & 0xff) as u8,
        ((x >> 32) & 0xff) as u8,
        ((x >> 40) & 0xff) as u8,
        ((x >> 48) & 0xff) as u8,
        ((x >> 56) & 0xff) as u8,
    ]
}

/// A value that can be fed to a `DefaultHasher` as a fixed sequence of writes.
///
/// `feed` must perform exactly the writes that `writes` describes, so the
/// digest of a value depends on the value alone.
pub trait Hashable {
    /// The write calls, each one byte string, that `feed` makes for this value.
    spec fn writes(&self) -> Seq<Seq<u8>>;

    /// Perform this value's writes on the given hasher.
    fn feed(&self, hasher: &mut DefaultHasher)
        ensures
            final(hasher)@ == old(hasher)@ + self.writes(),
    ;
}

/// The 64-bit digest of a value: what a fresh `DefaultHasher` returns once the
/// value has been fed to it.
pub open spec fn hash_of<T: Hashable>(v: T) -> u64 {
    DefaultHasher::spec_finish(v.writes())
}

/// Feed one 64-bit word to the hasher, as a single write of its
/// little-endian bytes.
fn feed_u64(x: u64, hasher: &mut DefaultHasher)
    ensures
        final(hasher)@ == old(hasher)@.push(u64_le_bytes(x)),
{
    let mut bytes: Vec<u8> = Vec::new();
    bytes.push((x & 0xff) as u8);
    bytes.push(((x >> 8) & 0xff) as u8);
    bytes.push(((x >> 16) & 0xff) as u8);
    bytes.push(((x >> 24) & 0xff) as u8);
    bytes.push(((x >> 32) & 0xff) as u8);
    bytes.push(((x >> 40) & 0xff) as u8);
    bytes.push(((x >> 48) & 0xff) as u8);
    bytes.push(((x >> 56) & 0xff) as u8);
    proof {
        assert(bytes@ =~= u64_le_bytes(x));
    }
    hasher.write(bytes.as_slice());
}

impl Hashable for usize {
    open spec fn writes(&self) -> Seq<Seq<u8>> {
        seq![u64_le_bytes(*self as u64)]
    }

    fn feed(&self, hasher: &mut DefaultHasher) {
        feed_u64(*self as u64, hasher);
        proof {
            assert(old(hasher)@.push(u64_le_bytes(*self as u64)) =~= old(hasher)@
                + self.writes());
        }
    }
}

impl Hashable for String {
    open spec fn writes(&self) -> Seq<Seq<u8>> {
        seq![encode_utf8(self@)]
    }

    fn feed(&self, hasher: &mut DefaultHasher) {
        let bytes = self.as_str().as_bytes();
        assert(bytes@ == encode_utf8(self@));
        hasher.write(bytes);
        proof {
            assert(old(hasher)@.push(encode_utf8(self@)) =~= old(hasher)@ + self.writes());
        }
    }
}

/// The writes of a sequence of values, one value after the next.
pub open spec fn writes_of_each<T: Hashable>(vs: Seq<T>) -> Seq<Seq<u8>>
    decreases vs.len(),
{
    if vs.len() == 0 {
        Seq::empty()
    } else {
        vs[0].writes() + writes_of_each(vs.drop_first())
    }
}

proof fn lemma_writes_of_each_snoc<T: Hashable>(vs: Seq<T>)
    requires
        vs.len() > 0,
    ensures
        writes_of_each(vs) == writes_of_each(vs.drop_last()) + vs.last().writes(),
    decreases vs.len(),
{
    if vs.len() == 1 {
        assert(writes_of_each(vs.drop_last()) + vs.last().writes() =~= vs[0].writes()
            + writes_of_each(vs.drop_first()));
    } else {
        lemma_writes_of_each_snoc(vs.drop_first());
        assert(vs.drop_first().drop_last() =~= vs.drop_last().drop_first());
        assert(writes_of_each(vs) =~= writes_of_each(vs.drop_last()) + vs.last().writes());
    }
}

impl<T: Hashable> Hashable for Vec<T> {
    /// The length, then each element in order.
    open spec fn writes(&self) -> Seq<Seq<u8>> {
        seq![u64_le_bytes(self@.len() as u64)] + writes_of_each(self@)
    }

    fn feed(&self, hasher: &mut DefaultHasher) {
        feed_u64(self.len() as u64, hasher);
        let ghost start = old(hasher)@;
        let mut i: usize = 0;
        while i < self.len()
            invariant
                i <= self.len(),
                hasher@ == start.push(u64_le_bytes(self@.len() as u64)) + writes_of_each(
                    self@.subrange(0, i as int),
                ),
            decreases self.len() - i,
        {
            let elem = &self[i];
            elem.feed(hasher);
            proof {
                let done = self@.subrange(0, i + 1);
                lemma_writes_of_each_snoc(done);
                assert(done.drop_last() =~= self@.subrange(0, i as int));
                assert(hasher@ =~= start.push(u64_le_bytes(self@.len() as u64))
                    + writes_of_each(done));
            }
            i = i + 1;
        }
        proof {
            assert(self@.subrange(0, self@.len() as int) =~= self@);
            assert(start.push(u64_le_bytes(self@.len() as u64)) + writes_of_each(self@)
                =~= start + self.writes());
        }
    }
}

} // verus!
