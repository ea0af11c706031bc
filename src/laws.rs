use vstd::prelude::*;

use crate::record::Hello;
use crate::state::views;

verus! {

/// The store that results when the requests of `arrivals` are created one
/// after another, in that order, on a store holding `start`: each create
/// appends its record, as `post` does.
pub open spec fn after_posts(
    start: Seq<(u32, Seq<char>)>,
    arrivals: Seq<(u32, Seq<char>)>,
) -> Seq<(u32, Seq<char>)>
    decreases arrivals.len(),
{
    if arrivals.len() == 0 {
        start
    } else {
        after_posts(start, arrivals.drop_last()).push(arrivals.last())
    }
}

/// A list that follows a create returns every record held before, in the
/// same order, and after them the created record.
pub proof fn lemma_create_then_list(
    before: Seq<(u32, Seq<char>)>,
    req: (u32, Seq<char>),
    after: Seq<(u32, Seq<char>)>,
    listed: Seq<Hello>,
)
    requires
        after == before.push(req),
        views(listed) == after,
    ensures
        listed.len() == before.len() + 1,
        forall|i: int| 0 <= i < before.len() ==> #[trigger] listed[i]@ == before[i],
        listed[before.len() as int]@ == req,
{
    assert(views(listed).len() == listed.len());
    assert forall|i: int| 0 <= i < before.len() implies #[trigger] listed[i]@ == before[i] by {
        assert(views(listed)[i] == listed[i]@);
    }
    assert(views(listed)[before.len() as int] == listed[before.len() as int]@);
}

/// Creates applied in turn keep every record: the store ends as the records
/// held at the start followed by the created ones in the order in which they
/// were applied. Whatever that order, no record is lost and none is added
/// twice: the multiset of records is that of the start plus that of the
/// requests.
pub proof fn lemma_creates_keep_every_record(
    start: Seq<(u32, Seq<char>)>,
    arrivals: Seq<(u32, Seq<char>)>,
)
    ensures
        after_posts(start, arrivals) == start + arrivals,
        after_posts(start, arrivals).len() == start.len() + arrivals.len(),
        after_posts(start, arrivals).to_multiset() == start.to_multiset().add(
            arrivals.to_multiset(),
        ),
    decreases arrivals.len(),
{
    if arrivals.len() > 0 {
        lemma_creates_keep_every_record(start, arrivals.drop_last());
        assert(start + arrivals =~= (start + arrivals.drop_last()).push(arrivals.last()));
    } else {
        assert(start + arrivals =~= start);
    }
    vstd::seq_lib::lemma_multiset_commutative(start, arrivals);
}

/// Two lists of one store with no create between them return the same
/// records in the same order.
pub proof fn lemma_list_repeatable(
    store: Seq<(u32, Seq<char>)>,
    first: Seq<Hello>,
    second: Seq<Hello>,
)
    requires
        views(first) == store,
        views(second) == store,
    ensures
        first.len() == second.len(),
        forall|i: int| 0 <= i < first.len() ==> #[trigger] first[i]@ == second[i]@,
{
    assert(views(first).len() == first.len());
    assert(views(second).len() == second.len());
    assert forall|i: int| 0 <= i < first.len() implies #[trigger] first[i]@ == second[i]@ by {
        assert(views(first)[i] == first[i]@);
        assert(views(second)[i] == second[i]@);
    }
}

} // verus!
