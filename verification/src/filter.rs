//! The visible subset of the instance list under a search query.

use vstd::prelude::*;
use crate::instance::Instance;
use crate::sort::sorted_from;
use crate::sort_mode::SortMode;
use crate::text::contains;
use crate::text::contains_chars;
use crate::text::lowercase_of;
use crate::text::to_chars;
use crate::text::to_lowercase;

verus! {

/// Whether a name answers a query: the empty query is answered by every
/// name, any other by the names that hold it as a run of characters once
/// both are in lowercase.
pub open spec fn name_matches(name: Seq<char>, query: Seq<char>) -> bool {
    query.len() == 0 || contains(lowercase_of(name), lowercase_of(query))
}

/// The condition that `query` puts on an instance.
pub open spec fn matching(query: Seq<char>) -> spec_fn(Instance) -> bool {
    |inst: Instance| name_matches(inst.name@, query)
}

/// The instances that answer `query`, in the order of `instances`.
pub open spec fn visible(instances: Seq<Instance>, query: Seq<char>) -> Seq<Instance> {
    instances.filter(matching(query))
}

/// The visible subset of a list that ends in `last` is that of the list
/// before it, followed by `last` if `last` answers the query.
pub proof fn lemma_visible_push(instances: Seq<Instance>, last: Instance, query: Seq<char>)
    ensures
        visible(instances.push(last), query) == if name_matches(last.name@, query) {
            visible(instances, query).push(last)
        } else {
            visible(instances, query)
        },
{
    reveal(Seq::filter);
    assert(instances.push(last).drop_last() =~= instances);
}

/// Under the empty query the whole list is visible, in its own order,
/// whichever order that is.
pub proof fn lemma_empty_query_shows_all(instances: Seq<Instance>)
    ensures
        visible(instances, Seq::empty()) == instances,
    decreases instances.len(),
{
    reveal(Seq::filter);
    if instances.len() > 0 {
        lemma_empty_query_shows_all(instances.drop_last());
        assert(instances.drop_last().push(instances.last()) =~= instances);
    }
}

/// Sorting and filtering by the empty query may be done in either order:
/// the empty query shows a sorted list whole and in the order of its sort,
/// whatever the sort mode.
pub proof fn lemma_empty_query_keeps_sort_order(
    mode: SortMode,
    input: Seq<Instance>,
    sorted: Seq<Instance>,
)
    requires
        sorted_from(mode, input, sorted),
    ensures
        visible(sorted, Seq::empty()) == sorted,
        sorted_from(mode, visible(input, Seq::empty()), visible(sorted, Seq::empty())),
{
    lemma_empty_query_shows_all(input);
    lemma_empty_query_shows_all(sorted);
}

/// Filtering what is visible by the same query once more changes nothing.
pub proof fn lemma_visible_idempotent(instances: Seq<Instance>, query: Seq<char>)
    ensures
        visible(visible(instances, query), query) == visible(instances, query),
    decreases instances.len(),
{
    reveal(Seq::filter);
    if instances.len() > 0 {
        let front = instances.drop_last();
        lemma_visible_idempotent(front, query);
        if name_matches(instances.last().name@, query) {
            lemma_visible_push(visible(front, query), instances.last(), query);
        }
    }
}

/// Every visible instance answers the query, and the visible subset is no
/// longer than the list.
pub proof fn lemma_visible_sound(instances: Seq<Instance>, query: Seq<char>)
    ensures
        visible(instances, query).len() <= instances.len(),
        forall|i: int|
            0 <= i < visible(instances, query).len() ==> name_matches(
                (#[trigger] visible(instances, query)[i]).name@,
                query,
            ),
    decreases instances.len(),
{
    reveal(Seq::filter);
    if instances.len() > 0 {
        lemma_visible_sound(instances.drop_last(), query);
    }
}

/// The instances of `instances` that answer `query`, in their order.
pub fn filter_instances(instances: &Vec<Instance>, query: &str) -> (r: Vec<Instance>)
    ensures
        r@ == visible(instances@, query@),
{
    let show_all = query.is_empty();
    let needle = if show_all {
        Vec::new()
    } else {
        let lowered_query = to_lowercase(query);
        to_chars(lowered_query.as_str())
    };
    let mut out: Vec<Instance> = Vec::new();
    let mut i: usize = 0;
    proof {
        reveal(Seq::filter);
        assert(instances@.take(0) =~= Seq::<Instance>::empty());
    }
    while i < instances.len()
        invariant
            i <= instances.len(),
            show_all == (query@.len() == 0),
            !show_all ==> needle@ == lowercase_of(query@),
            out@ == visible(instances@.take(i as int), query@),
        decreases instances.len() - i,
    {
        let keep = if show_all {
            true
        } else {
            let lowered_name = to_lowercase(instances[i].name.as_str());
            let hay = to_chars(lowered_name.as_str());
            contains_chars(&hay, &needle)
        };
        proof {
            lemma_visible_push(instances@.take(i as int), instances@[i as int], query@);
            assert(instances@.take(i as int).push(instances@[i as int]) =~= instances@.take(
                i + 1,
            ));
        }
        if keep {
            out.push(instances[i].clone());
        }
        i += 1;
    }
    assert(instances@.take(i as int) =~= instances@);
    out
}

} // verus!
