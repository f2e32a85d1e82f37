use crate::adapters::base::{IdView, Model};
use vstd::prelude::*;

verus! {

/// Whether `i` is the first index at which `hits` is true.
pub open spec fn is_first_hit(hits: Seq<bool>, i: int) -> bool {
    &&& 0 <= i < hits.len()
    &&& hits[i]
    &&& forall|j: int| 0 <= j < i ==> !hits[j]
}

/// The first index at which `hits` is true, where there is one.
pub open spec fn first_hit(hits: Seq<bool>) -> Option<int> {
    if exists|i: int| is_first_hit(hits, i) {
        Some(choose|i: int| is_first_hit(hits, i))
    } else {
        None
    }
}

/// An index that is the first hit is what `first_hit` gives.
pub proof fn lemma_first_hit_at(hits: Seq<bool>, i: int)
    requires
        is_first_hit(hits, i),
    ensures
        first_hit(hits) == Some(i),
{
    let k = choose|k: int| is_first_hit(hits, k);
    assert(is_first_hit(hits, k));
    if k < i {
        assert(!hits[k]);
    }
    if i < k {
        assert(!hits[i]);
    }
}

/// Below any hit there is a first one.
proof fn lemma_least_hit(hits: Seq<bool>, j: int)
    requires
        0 <= j < hits.len(),
        hits[j],
    ensures
        exists|i: int| is_first_hit(hits, i),
    decreases j,
{
    if forall|k: int| 0 <= k < j ==> !hits[k] {
        assert(is_first_hit(hits, j));
    } else {
        let k = choose|k: int| 0 <= k < j && hits[k];
        lemma_least_hit(hits, k);
    }
}

/// What `first_hit` gives is the first hit, and it gives nothing only where
/// nothing hits.
pub proof fn lemma_first_hit(hits: Seq<bool>)
    ensures
        match first_hit(hits) {
            Some(i) => is_first_hit(hits, i),
            None => forall|j: int| 0 <= j < hits.len() ==> !hits[j],
        },
{
    if first_hit(hits) is None {
        assert forall|j: int| 0 <= j < hits.len() implies !hits[j] by {
            if hits[j] {
                lemma_least_hit(hits, j);
            }
        }
    }
}

/// The views of the values in `s`.
pub open spec fn views<T: View>(s: Seq<T>) -> Seq<T::V> {
    s.map_values(|t: T| t@)
}

/// The view of the value in `o`, where it holds one.
pub open spec fn option_view<T: View>(o: Option<T>) -> Option<T::V> {
    match o {
        Some(t) => Some(t@),
        None => None,
    }
}

/// For each entity, whether its identifier is `id`.
pub open spec fn id_hits<M: Model>(entities: Seq<M::V>, id: IdView) -> Seq<bool> {
    Seq::new(entities.len(), |i: int| M::id_of(entities[i]) == id)
}

/// The index of the first entity whose identifier is `id`.
pub open spec fn index_of_id<M: Model>(entities: Seq<M::V>, id: IdView) -> Option<int> {
    first_hit(id_hits::<M>(entities, id))
}

/// The first entity whose identifier is `id`.
pub open spec fn lookup<M: Model>(entities: Seq<M::V>, id: IdView) -> Option<M::V> {
    match index_of_id::<M>(entities, id) {
        Some(i) => Some(entities[i]),
        None => None,
    }
}

/// The part of `s` that a query hands out when it is told to pass over the
/// first `offset` items and to hand out `limit` of them: a `limit` of zero
/// stands for no limit, and a negative one for its positive value.
pub open spec fn window<A>(s: Seq<A>, offset: nat, limit: int) -> Seq<A> {
    let rest = if offset >= s.len() {
        Seq::<A>::empty()
    } else {
        s.skip(offset as int)
    };
    let most = if limit < 0 {
        -limit
    } else {
        limit
    };
    if limit == 0 || most >= rest.len() {
        rest
    } else {
        rest.take(most)
    }
}

/// The number of entities as a listing reports it: the length, held to the
/// largest number that the report can carry.
pub open spec fn total_count(len: nat) -> int {
    if len > i32::MAX {
        i32::MAX as int
    } else {
        len as int
    }
}

} // verus!
