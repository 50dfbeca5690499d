//! Combining per-batch results into one collection.
//!
//! Batches are dispatched concurrently and complete in no guaranteed order,
//! so the combined collection is meaningful only as a multiset: it holds
//! exactly the records of every batch, each batch's contribution in its own
//! order, whatever order the batches arrived in.

use vstd::prelude::*;

verus! {

use vstd::multiset::Multiset;

/// The records of all batches taken together, with no order across batches.
pub open spec fn union_of_batches<T>(batches: Seq<Seq<T>>) -> Multiset<T>
    decreases batches.len(),
{
    if batches.len() == 0 {
        Multiset::empty()
    } else {
        union_of_batches(batches.drop_last()).add(batches.last().to_multiset())
    }
}

/// Flattening batches in any arrival order yields exactly their union: the
/// multiset of a concatenation is the sum of the parts' multisets.
pub proof fn lemma_flatten_is_union<T>(batches: Seq<Seq<T>>)
    ensures
        batches.flatten().to_multiset() == union_of_batches(batches),
    decreases batches.len(),
{
    broadcast use vstd::seq_lib::group_to_multiset_ensures;

    batches.lemma_flatten_and_flatten_alt_are_equivalent();
    if batches.len() == 0 {
        assert(batches.flatten() =~= Seq::<T>::empty());
        assert(batches.flatten().to_multiset() =~= Multiset::empty());
    } else {
        let prefix = batches.drop_last();
        lemma_flatten_is_union(prefix);
        prefix.lemma_flatten_and_flatten_alt_are_equivalent();
        assert(batches.flatten_alt() == prefix.flatten_alt() + batches.last());
        vstd::seq_lib::lemma_multiset_commutative(prefix.flatten_alt(), batches.last());
    }
}

/// The union does not depend on the position of any one batch: removing a
/// batch from anywhere and adding its records back yields the same union.
pub proof fn lemma_union_remove<T>(batches: Seq<Seq<T>>, j: int)
    requires
        0 <= j < batches.len(),
    ensures
        union_of_batches(batches) == union_of_batches(batches.remove(j)).add(
            batches[j].to_multiset(),
        ),
    decreases batches.len(),
{
    if j == batches.len() - 1 {
        assert(batches.remove(j) =~= batches.drop_last());
    } else {
        let prefix = batches.drop_last();
        lemma_union_remove(prefix, j);
        assert(batches.remove(j).drop_last() =~= prefix.remove(j));
        assert(batches.remove(j).last() == batches.last());
        assert(union_of_batches(batches.remove(j)) == union_of_batches(
            prefix.remove(j),
        ).add(batches.last().to_multiset()));
        assert(union_of_batches(batches.remove(j)).add(batches[j].to_multiset())
            =~= union_of_batches(batches));
    }
}

/// Batches complete in no guaranteed order, and the union does not care:
/// any two arrival orders of the same batches yield the same union of
/// records.
pub proof fn lemma_union_order_insensitive<T>(arrived: Seq<Seq<T>>, dispatched: Seq<Seq<T>>)
    requires
        arrived.to_multiset() == dispatched.to_multiset(),
    ensures
        union_of_batches(arrived) == union_of_batches(dispatched),
    decreases arrived.len(),
{
    broadcast use vstd::seq_lib::group_to_multiset_ensures;

    if arrived.len() == 0 {
        arrived.to_multiset_ensures();
        dispatched.to_multiset_ensures();
        assert(dispatched.len() == 0);
    } else {
        let last = arrived.last();
        assert(arrived.to_multiset().contains(last)) by {
            assert(arrived.contains(last));
        }
        assert(dispatched.contains(last));
        let j = choose|j: int| 0 <= j < dispatched.len() && dispatched[j] == last;
        assert(arrived.drop_last() =~= arrived.remove(arrived.len() - 1));
        assert(arrived.drop_last().to_multiset() == dispatched.remove(j).to_multiset()) by {
            assert(arrived.remove(arrived.len() - 1).to_multiset() =~= arrived.to_multiset()
                .remove(last));
            assert(dispatched.remove(j).to_multiset() =~= dispatched.to_multiset().remove(last));
        }
        lemma_union_order_insensitive(arrived.drop_last(), dispatched.remove(j));
        lemma_union_remove(dispatched, j);
    }
}

/// Concatenates the per-batch result vectors, in the order they arrived,
/// each batch's records kept in their own order. The result carries exactly
/// the union of the batches' records.
#[verifier::loop_isolation(false)]
pub fn flatten_results<T>(results: Vec<Vec<T>>) -> (r: Vec<T>)
    ensures
        r@ == results@.map_values(|v: Vec<T>| v@).flatten(),
        r@.to_multiset() == union_of_batches(results@.map_values(|v: Vec<T>| v@)),
{
    broadcast use vstd::seq::Seq::lemma_flatten_push;

    let ghost all: Seq<Seq<T>> = results@.map_values(|v: Vec<T>| v@);
    let mut results = results;
    let n = results.len();
    let mut r: Vec<T> = Vec::new();
    let mut i: usize = 0;
    proof {
        assert(Seq::<Seq<T>>::empty().flatten() =~= Seq::<T>::empty());
        assert(results@.map_values(|v: Vec<T>| v@) =~= all.skip(0));
    }
    while i < n
        invariant
            i <= n,
            n == all.len(),
            results.len() == n - i,
            results@.map_values(|v: Vec<T>| v@) == all.skip(i as int),
            r@ == all.take(i as int).flatten(),
        decreases n - i,
    {
        let ghost old_rs = results@;
        let mut batch = results.remove(0);
        proof {
            assert(batch == old_rs[0]);
            assert(old_rs.map_values(|v: Vec<T>| v@)[0] == all.skip(i as int)[0]);
            assert(batch@ == all[i as int]);
            assert forall|j: int| 0 <= j < results@.len() implies results@.map_values(
                |v: Vec<T>| v@,
            )[j] == #[trigger] (all.skip(i as int + 1)[j]) by {
                assert(results@[j] == old_rs[j + 1]);
                assert(old_rs.map_values(|v: Vec<T>| v@)[j + 1] == all.skip(i as int)[j + 1]);
                assert(all.skip(i as int)[j + 1] == all[i + 1 + j]);
                assert(all.skip(i as int + 1)[j] == all[i + 1 + j]);
            }
            assert(results@.map_values(|v: Vec<T>| v@) =~= all.skip(i as int + 1));
            assert(all.take(i as int + 1).drop_last() =~= all.take(i as int));
            assert(all.take(i as int + 1).last() == all[i as int]);
            assert(all.take(i as int + 1) =~= all.take(i as int).push(all[i as int]));
        }
        r.append(&mut batch);
        i = i + 1;
    }
    proof {
        assert(all.take(all.len() as int) =~= all);
        lemma_flatten_is_union(all);
    }
    r
}

} // verus!
