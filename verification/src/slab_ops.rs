//! Trusted declarations for the `slab` crate, used by the session table.
//!
//! A slab hands out keys from a chain of vacant slots: the key `insert`
//! returns is the head of the chain (`Slab::vacant_key`); `remove` puts the
//! freed key at the head; the chain always ends with the number of slots the
//! slab has ever used, which `insert` takes when no freed slot is left.
use vstd::prelude::*;
use slab::Slab;

verus! {

/// The `slab::Slab` collection, opaque to Verus.
#[verifier::external_type_specification]
#[verifier::external_body]
#[verifier::reject_recursive_types(T)]
pub struct ExSlab<T>(Slab<T>);

/// The set of keys that are occupied in a slab of unit values.
pub uninterp spec fn slab_keys(slab: Slab<()>) -> Set<usize>;

/// The chain of vacant keys, from `vacant_key` to the number of slots used.
pub uninterp spec fn slab_vacant(slab: Slab<()>) -> Seq<usize>;

/// What holds of the keys and the vacant chain of every slab.
pub open spec fn slab_wf(keys: Set<usize>, vacant: Seq<usize>) -> bool {
    &&& keys.finite()
    &&& vacant.len() >= 1
    &&& vacant.last() <= isize::MAX
    &&& forall|k: usize| keys.contains(k) ==> k < vacant.last()
    &&& forall|i: int| 0 <= i < vacant.len() ==> !keys.contains(#[trigger] vacant[i])
    &&& forall|i: int| 0 <= i < vacant.len() - 1 ==> #[trigger] vacant[i] < vacant.last()
    &&& forall|i: int, j: int| 0 <= i < j < vacant.len() ==> vacant[i] != vacant[j]
}

/// The vacant chain after the head was taken by `insert`.
pub open spec fn vacant_after_insert(vacant: Seq<usize>) -> Seq<usize> {
    if vacant.len() == 1 {
        seq![(vacant[0] + 1) as usize]
    } else {
        vacant.drop_first()
    }
}

/// `Slab::new`: an empty slab that has used no slot.
#[verifier::external_body]
pub fn slab_new() -> (s: Slab<()>)
    ensures
        slab_keys(s) == Set::<usize>::empty(),
        slab_vacant(s) == seq![0usize],
{
    Slab::new()
}

/// `Slab::len`: the number of occupied keys.
#[verifier::external_body]
pub fn slab_len(s: &Slab<()>) -> (n: usize)
    ensures
        n == slab_keys(*s).len(),
{
    s.len()
}

/// `Slab::contains`: whether the key is occupied.
#[verifier::external_body]
pub fn slab_contains(s: &Slab<()>, key: usize) -> (b: bool)
    ensures
        b == slab_keys(*s).contains(key),
{
    s.contains(key)
}

/// `Slab::insert`: occupies the head of the vacant chain and returns it.
/// The slots live in a `Vec`, whose length never exceeds `isize::MAX`.
/// Growing that `Vec` past `isize::MAX` bytes panics; that takes some 2^58
/// slots on a 64-bit machine, and is left unsaid here.
#[verifier::external_body]
pub fn slab_insert(s: &mut Slab<()>) -> (key: usize)
    requires
        slab_vacant(*old(s)).len() >= 1,
        slab_vacant(*old(s))[0] < usize::MAX,
    ensures
        key == slab_vacant(*old(s))[0],
        slab_keys(*final(s)) == slab_keys(*old(s)).insert(key),
        slab_vacant(*final(s)) == vacant_after_insert(slab_vacant(*old(s))),
        slab_vacant(*final(s)).last() <= isize::MAX,
{
    s.insert(())
}

/// `Slab::remove`: frees an occupied key, which becomes the head of the vacant chain.
#[verifier::external_body]
pub fn slab_remove(s: &mut Slab<()>, key: usize)
    requires
        slab_keys(*old(s)).contains(key),
    ensures
        slab_keys(*final(s)) == slab_keys(*old(s)).remove(key),
        slab_vacant(*final(s)) == seq![key].add(slab_vacant(*old(s))),
{
    s.remove(key);
}

/// Every insertion keeps what holds of a slab.
pub proof fn lemma_insert_keeps_wf(keys: Set<usize>, vacant: Seq<usize>)
    requires
        slab_wf(keys, vacant),
        vacant_after_insert(vacant).last() <= isize::MAX,
    ensures
        slab_wf(keys.insert(vacant[0]), vacant_after_insert(vacant)),
{
    let k2 = keys.insert(vacant[0]);
    let v2 = vacant_after_insert(vacant);
    if vacant.len() == 1 {
        assert forall|k: usize| k2.contains(k) implies k < v2.last() by {
            if k != vacant[0] {
                assert(keys.contains(k));
            }
        }
    } else {
        assert(v2.last() == vacant.last());
        assert forall|i: int| 0 <= i < v2.len() implies !k2.contains(#[trigger] v2[i]) by {
            assert(v2[i] == vacant[i + 1]);
            assert(vacant[0] != vacant[i + 1]);
        }
        assert forall|i: int| 0 <= i < v2.len() - 1 implies #[trigger] v2[i] < v2.last() by {
            assert(v2[i] == vacant[i + 1]);
        }
        assert forall|i: int, j: int| 0 <= i < j < v2.len() implies v2[i] != v2[j] by {
            assert(v2[i] == vacant[i + 1]);
            assert(v2[j] == vacant[j + 1]);
        }
        assert forall|k: usize| k2.contains(k) implies k < v2.last() by {
            if k == vacant[0] {
                assert(vacant[0] < vacant.last());
            }
        }
    }
}

/// Every removal keeps what holds of a slab.
pub proof fn lemma_remove_keeps_wf(keys: Set<usize>, vacant: Seq<usize>, key: usize)
    requires
        slab_wf(keys, vacant),
        keys.contains(key),
    ensures
        slab_wf(keys.remove(key), seq![key].add(vacant)),
{
    let k2 = keys.remove(key);
    let v2 = seq![key].add(vacant);
    assert(v2.last() == vacant.last());
    assert forall|i: int| 0 <= i < v2.len() implies !k2.contains(#[trigger] v2[i]) by {
        if i > 0 {
            assert(v2[i] == vacant[i - 1]);
        }
    }
    assert forall|i: int| 0 <= i < v2.len() - 1 implies #[trigger] v2[i] < v2.last() by {
        if i > 0 {
            assert(v2[i] == vacant[i - 1]);
        }
    }
    assert forall|i: int, j: int| 0 <= i < j < v2.len() implies v2[i] != v2[j] by {
        assert(v2[j] == vacant[j - 1]);
        if i > 0 {
            assert(v2[i] == vacant[i - 1]);
        } else {
            assert(!keys.contains(vacant[j - 1]));
        }
    }
}

} // verus!
