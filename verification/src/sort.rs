//! The orders of the instance list and the stable sort that establishes
//! them.

use vstd::prelude::*;
use crate::instance::Instance;
use crate::sort_mode::SortMode;
use crate::text::lemma_lex_lt_asymmetric;
use crate::text::lemma_lex_lt_connected;
use crate::text::lemma_lex_lt_transitive;
use crate::text::lex_lt;
use crate::text::str_lt;
use vstd::set_lib::lemma_int_range;
use vstd::set_lib::lemma_subset_equality;
use vstd::set_lib::set_int_range;

verus! {

/// The rank of an optional count among the counts: an absent count ranks
/// below every present one, zero included.
pub open spec fn rank(count: Option<u64>) -> int {
    match count {
        Some(n) => n as int,
        None => -1,
    }
}

/// The count by which `mode` orders an instance. The order by name uses
/// none.
pub open spec fn sort_count(mode: SortMode, inst: Instance) -> Option<u64> {
    match mode {
        SortMode::Name => None,
        SortMode::LastPlayed => inst.last_played_ts,
        SortMode::Playtime => inst.time_played_secs,
    }
}

/// Whether `mode` places `a` strictly before `b`, wherever the two stood.
/// By name the smaller name comes first, in lexicographic order; by last
/// launch and by play time the greater rank comes first.
pub open spec fn comes_before(mode: SortMode, a: Instance, b: Instance) -> bool {
    match mode {
        SortMode::Name => lex_lt(a.name@, b.name@),
        SortMode::LastPlayed => rank(a.last_played_ts) > rank(b.last_played_ts),
        SortMode::Playtime => rank(a.time_played_secs) > rank(b.time_played_secs),
    }
}

/// Whether `mode` ranks `a` and `b` alike, so that their order is that in
/// which they stood.
pub open spec fn tied(mode: SortMode, a: Instance, b: Instance) -> bool {
    !comes_before(mode, a, b) && !comes_before(mode, b, a)
}

/// `origin` rearranges `input` into `output`: `output[i]` is
/// `input[origin[i]]`, and no position of `input` is used twice.
pub open spec fn rearranges(input: Seq<Instance>, output: Seq<Instance>, origin: Seq<int>) -> bool {
    &&& output.len() == input.len()
    &&& origin.len() == input.len()
    &&& forall|i: int|
        0 <= i < output.len() ==> 0 <= #[trigger] origin[i] < input.len() && output[i]
            == input[origin[i]]
    &&& forall|i: int, j: int|
        0 <= i < j < output.len() ==> #[trigger] origin[i] != #[trigger] origin[j]
}

/// `output` is `input` sorted by `mode`, and `origin` tells where each item
/// of `output` stood in `input`. Nothing stands after an item that `mode`
/// places it before, and items that `mode` ranks alike stand in the order
/// in which they stood in `input`.
pub open spec fn is_stable_sort(
    mode: SortMode,
    input: Seq<Instance>,
    output: Seq<Instance>,
    origin: Seq<int>,
) -> bool {
    &&& rearranges(input, output, origin)
    &&& forall|i: int, j: int|
        0 <= i < j < output.len() ==> !comes_before(mode, #[trigger] output[j], #[trigger] output[i])
    &&& forall|i: int, j: int|
        0 <= i < j < output.len() && tied(mode, output[i], output[j]) ==> #[trigger] origin[i]
            < #[trigger] origin[j]
}

/// `output` is `input` in the order of `mode`, ties in their former order.
pub open spec fn sorted_from(mode: SortMode, input: Seq<Instance>, output: Seq<Instance>) -> bool {
    exists|origin: Seq<int>| is_stable_sort(mode, input, output, origin)
}

/// No mode places two instances each before the other.
pub proof fn lemma_comes_before_asymmetric(mode: SortMode, a: Instance, b: Instance)
    requires
        comes_before(mode, a, b),
    ensures
        !comes_before(mode, b, a),
{
    if mode == SortMode::Name {
        lemma_lex_lt_asymmetric(a.name@, b.name@);
    }
}

/// What comes before an instance comes before everything that the instance
/// does not come after.
pub proof fn lemma_comes_before_extends(mode: SortMode, x: Instance, a: Instance, b: Instance)
    requires
        comes_before(mode, x, a),
        !comes_before(mode, b, a),
    ensures
        comes_before(mode, x, b),
{
    if mode == SortMode::Name {
        if lex_lt(a.name@, b.name@) {
            lemma_lex_lt_transitive(x.name@, a.name@, b.name@);
        } else {
            lemma_lex_lt_connected(a.name@, b.name@);
        }
    }
}

/// In the order by last launch and in the order by play time, every
/// instance without a value stands after every instance with one, and
/// instances with the same value, or both without one, stand in the order
/// in which they stood before the sort. This holds of every arrangement of
/// the input.
pub proof fn lemma_absent_counts_last_and_ties_stable(
    mode: SortMode,
    input: Seq<Instance>,
    output: Seq<Instance>,
)
    requires
        mode != SortMode::Name,
        sorted_from(mode, input, output),
    ensures
        forall|i: int, j: int|
            0 <= i < output.len() && 0 <= j < output.len() && sort_count(mode, output[i]) is Some
                && sort_count(mode, output[j]) is None ==> i < j,
        exists|origin: Seq<int>|
            rearranges(input, output, origin) && forall|i: int, j: int|
                0 <= i < j < output.len() && sort_count(mode, output[i]) == sort_count(
                    mode,
                    output[j],
                ) ==> #[trigger] origin[i] < #[trigger] origin[j],
{
    let origin = choose|origin: Seq<int>| is_stable_sort(mode, input, output, origin);
    assert forall|i: int, j: int|
        0 <= i < output.len() && 0 <= j < output.len() && sort_count(mode, output[i]) is Some
            && sort_count(mode, output[j]) is None implies i < j by {
        if j < i {
            assert(!comes_before(mode, output[i], output[j]));
        }
    }
    assert forall|i: int, j: int|
        0 <= i < j < output.len() && sort_count(mode, output[i]) == sort_count(
            mode,
            output[j],
        ) implies #[trigger] origin[i] < #[trigger] origin[j] by {
        assert(tied(mode, output[i], output[j]));
    }
}

/// A rearrangement uses every position of its input.
pub proof fn lemma_rearrangement_is_onto(
    input: Seq<Instance>,
    output: Seq<Instance>,
    origin: Seq<int>,
    at: int,
)
    requires
        rearranges(input, output, origin),
        0 <= at < input.len(),
    ensures
        exists|i: int| 0 <= i < origin.len() && origin[i] == at,
{
    let positions = set_int_range(0, input.len() as int);
    assert(origin.no_duplicates()) by {
        assert forall|i: int, j: int|
            0 <= i < origin.len() && 0 <= j < origin.len() && i != j implies origin[i]
            != origin[j] by {
            if i < j {
                assert(origin[i] != origin[j]);
            } else {
                assert(origin[j] != origin[i]);
            }
        }
    }
    origin.unique_seq_to_set();
    lemma_int_range(0, input.len() as int);
    assert(origin.to_set().subset_of(positions)) by {
        assert forall|x: int| origin.to_set().contains(x) implies positions.contains(x) by {
            let i = choose|i: int| 0 <= i < origin.len() && origin[i] == x;
            assert(0 <= origin[i] < input.len());
        }
    }
    lemma_subset_equality(origin.to_set(), positions);
    assert(positions.contains(at));
    assert(origin.contains(at));
}

/// A sorted list is a rearrangement of the list it was sorted from: it is
/// as long, each of its instances stands in that list, and each instance of
/// that list stands in it.
pub proof fn lemma_sort_keeps_items(mode: SortMode, input: Seq<Instance>, output: Seq<Instance>)
    requires
        sorted_from(mode, input, output),
    ensures
        output.len() == input.len(),
        forall|i: int| 0 <= i < output.len() ==> input.contains(#[trigger] output[i]),
        forall|i: int| 0 <= i < input.len() ==> output.contains(#[trigger] input[i]),
{
    let origin = choose|origin: Seq<int>| is_stable_sort(mode, input, output, origin);
    assert forall|i: int| 0 <= i < output.len() implies input.contains(#[trigger] output[i]) by {
        assert(input[origin[i]] == output[i]);
    }
    assert forall|i: int| 0 <= i < input.len() implies output.contains(#[trigger] input[i]) by {
        lemma_rearrangement_is_onto(input, output, origin, i);
        let k = choose|k: int| 0 <= k < origin.len() && origin[k] == i;
        assert(output[k] == input[i]);
    }
}

/// Two stable sorts of one list take each item from the same position.
proof fn lemma_origins_agree(
    mode: SortMode,
    input: Seq<Instance>,
    first: Seq<Instance>,
    first_origin: Seq<int>,
    second: Seq<Instance>,
    second_origin: Seq<int>,
    at: int,
)
    requires
        is_stable_sort(mode, input, first, first_origin),
        is_stable_sort(mode, input, second, second_origin),
        0 <= at < input.len(),
    ensures
        first_origin[at] == second_origin[at],
    decreases at,
{
    assert forall|k: int| 0 <= k < at implies first_origin[k] == second_origin[k] by {
        lemma_origins_agree(mode, input, first, first_origin, second, second_origin, k);
    }
    let x = first_origin[at];
    let y = second_origin[at];
    if x != y {
        lemma_rearrangement_is_onto(input, second, second_origin, x);
        let b = choose|b: int| 0 <= b < second_origin.len() && second_origin[b] == x;
        lemma_rearrangement_is_onto(input, first, first_origin, y);
        let c = choose|c: int| 0 <= c < first_origin.len() && first_origin[c] == y;
        if b < at {
            assert(first_origin[b] != first_origin[at]);
        }
        if c < at {
            assert(second_origin[c] != second_origin[at]);
        }
        assert(at < b && at < c);
        assert(second[at] == input[y] && second[b] == input[x]);
        assert(first[at] == input[x] && first[c] == input[y]);
        assert(!comes_before(mode, second[b], second[at]));
        assert(!comes_before(mode, first[c], first[at]));
        assert(tied(mode, second[at], second[b]));
        assert(tied(mode, first[at], first[c]));
        assert(second_origin[at] < second_origin[b]);
        assert(first_origin[at] < first_origin[c]);
    }
}

/// A list has one sorted order under each mode: two lists that are both the
/// stable sort of one list are the same list.
pub proof fn lemma_sorted_order_is_unique(
    mode: SortMode,
    input: Seq<Instance>,
    first: Seq<Instance>,
    second: Seq<Instance>,
)
    requires
        sorted_from(mode, input, first),
        sorted_from(mode, input, second),
    ensures
        first == second,
{
    let first_origin = choose|origin: Seq<int>| is_stable_sort(mode, input, first, origin);
    let second_origin = choose|origin: Seq<int>| is_stable_sort(mode, input, second, origin);
    assert forall|k: int| 0 <= k < first.len() implies first[k] == second[k] by {
        lemma_origins_agree(mode, input, first, first_origin, second, second_origin, k);
    }
    assert(first =~= second);
}

fn outranks(a: Option<u64>, b: Option<u64>) -> (r: bool)
    ensures
        r == (rank(a) > rank(b)),
{
    match (a, b) {
        (Some(x), Some(y)) => x > y,
        (Some(_), None) => true,
        (None, _) => false,
    }
}

/// Whether `mode` places `a` strictly before `b`.
pub fn precedes(mode: SortMode, a: &Instance, b: &Instance) -> (r: bool)
    ensures
        r == comes_before(mode, *a, *b),
{
    match mode {
        SortMode::Name => str_lt(a.name.as_str(), b.name.as_str()),
        SortMode::LastPlayed => outranks(a.last_played_ts, b.last_played_ts),
        SortMode::Playtime => outranks(a.time_played_secs, b.time_played_secs),
    }
}

/// The state of the sort when the first `done` items are in order: `cur`
/// is a rearrangement of `input` whose items from `done` on have not moved
/// and whose first `done` items are those of `input`, stably sorted.
spec fn sorted_prefix(
    mode: SortMode,
    input: Seq<Instance>,
    cur: Seq<Instance>,
    origin: Seq<int>,
    done: int,
) -> bool {
    &&& rearranges(input, cur, origin)
    &&& forall|k: int| done <= k < cur.len() ==> #[trigger] origin[k] == k
    &&& forall|k: int| 0 <= k < done && k < cur.len() ==> #[trigger] origin[k] < done
    &&& forall|i: int, j: int|
        0 <= i < j < done && j < cur.len() ==> !comes_before(
            mode,
            #[trigger] cur[j],
            #[trigger] cur[i],
        )
    &&& forall|i: int, j: int|
        0 <= i < j < done && j < cur.len() && tied(mode, cur[i], cur[j]) ==> #[trigger] origin[i]
            < #[trigger] origin[j]
}

/// Moving the item at `done` down to `at` keeps the prefix sorted, where
/// the item comes before all that it passes and not before its new left
/// neighbour.
proof fn lemma_insert_keeps_sorted(
    mode: SortMode,
    input: Seq<Instance>,
    cur: Seq<Instance>,
    origin: Seq<int>,
    done: int,
    at: int,
)
    requires
        0 <= at <= done < cur.len(),
        sorted_prefix(mode, input, cur, origin, done),
        forall|k: int| at <= k < done ==> comes_before(mode, cur[done], #[trigger] cur[k]),
        at > 0 ==> !comes_before(mode, cur[done], cur[at - 1]),
    ensures
        sorted_prefix(
            mode,
            input,
            cur.remove(done).insert(at, cur[done]),
            origin.remove(done).insert(at, origin[done]),
            done + 1,
        ),
{
    let x = cur[done];
    let next = cur.remove(done).insert(at, x);
    let next_origin = origin.remove(done).insert(at, origin[done]);
    // Where each item of the new arrangement stood in the old one.
    let from = |k: int| if k < at { k } else if k == at { done } else if k <= done { k - 1 } else { k };
    assert forall|k: int| 0 <= k < next.len() implies #[trigger] next[k] == cur[from(k)]
        && #[trigger] next_origin[k] == origin[from(k)] by {}
    assert forall|k: int| 0 <= k < at implies !comes_before(mode, x, #[trigger] cur[k]) by {
        if comes_before(mode, x, cur[k]) {
            if k < at - 1 {
                assert(!comes_before(mode, cur[at - 1], cur[k]));
            }
            lemma_comes_before_extends(mode, x, cur[k], cur[at - 1]);
        }
    }
    assert forall|k: int| at <= k < done implies !comes_before(mode, #[trigger] cur[k], x) by {
        lemma_comes_before_asymmetric(mode, x, cur[k]);
    }
    assert forall|i: int, j: int| 0 <= i < j < next.len() implies #[trigger] next_origin[i]
        != #[trigger] next_origin[j] by {
        assert(from(i) != from(j));
        if from(i) < from(j) {
            assert(origin[from(i)] != origin[from(j)]);
        } else {
            assert(origin[from(j)] != origin[from(i)]);
        }
    }
    assert forall|i: int, j: int| 0 <= i < j < done + 1 && j < next.len() implies !comes_before(
        mode,
        #[trigger] next[j],
        #[trigger] next[i],
    ) by {
        if i != at && j != at {
            assert(!comes_before(mode, cur[from(j)], cur[from(i)]));
        }
    }
    assert forall|i: int, j: int|
        0 <= i < j < done + 1 && j < next.len() && tied(mode, next[i], next[j]) implies
        #[trigger] next_origin[i] < #[trigger] next_origin[j] by {
        if i != at && j != at {
            assert(tied(mode, cur[from(i)], cur[from(j)]));
            assert(origin[from(i)] < origin[from(j)]);
        } else if j == at {
            assert(origin[from(i)] < done);
        }
    }
    assert(rearranges(input, next, next_origin));
}

/// Sorts `instances` by `mode`. The sort is stable: instances that `mode`
/// ranks alike keep their order.
pub fn sort_instances(instances: &mut Vec<Instance>, mode: SortMode)
    ensures
        sorted_from(mode, old(instances)@, final(instances)@),
{
    let ghost input = instances@;
    let ghost mut origin: Seq<int> = Seq::new(input.len(), |k: int| k);
    let mut done: usize = 0;
    while done < instances.len()
        invariant
            done <= instances.len(),
            sorted_prefix(mode, input, instances@, origin, done as int),
        decreases instances.len() - done,
    {
        let mut at: usize = done;
        while at > 0 && precedes(mode, &instances[done], &instances[at - 1])
            invariant
                at <= done < instances.len(),
                forall|k: int|
                    at <= k < done ==> comes_before(mode, instances@[done as int], #[trigger] instances@[k]),
            decreases at,
        {
            at -= 1;
        }
        proof {
            lemma_insert_keeps_sorted(mode, input, instances@, origin, done as int, at as int);
            origin = origin.remove(done as int).insert(at as int, origin[done as int]);
        }
        let moved = instances.remove(done);
        instances.insert(at, moved);
        done += 1;
    }
    assert(is_stable_sort(mode, input, instances@, origin));
}

} // verus!
