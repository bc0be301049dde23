//! What holds of every crossover, whatever was drawn.

use crate::crossover::{crosses, CrossoverFunctions};
use crate::model::{blend, segment_of, shared_len, step_to, valid_cross_points};
use vstd::prelude::*;

verus! {

/// Whatever the mask, both children are as long as the shorter parent.
pub proof fn lemma_blend_length<T>(a: Seq<T>, b: Seq<T>, mask: Seq<bool>)
    ensures
        blend(a, b, mask).len() == shared_len(a, b),
        blend(b, a, mask).len() == shared_len(a, b),
{
}

/// Whatever the mask, a parent crossed with itself comes back unchanged.
pub proof fn lemma_blend_of_one_parent<T>(a: Seq<T>, mask: Seq<bool>)
    ensures
        blend(a, a, mask) == a,
{
    assert(blend(a, a, mask) =~= a);
}

/// At every shared position the two children hold the two parents' genes of
/// that position: the first child its own parent's where the mask holds, the
/// other parent's where it does not, and the second child the gene that the
/// first one left.
pub proof fn lemma_blend_exchanges<T>(a: Seq<T>, b: Seq<T>, mask: Seq<bool>, i: int)
    requires
        0 <= i < shared_len(a, b),
    ensures
        mask[i] ==> blend(a, b, mask)[i] == a[i] && blend(b, a, mask)[i] == b[i],
        !mask[i] ==> blend(a, b, mask)[i] == b[i] && blend(b, a, mask)[i] == a[i],
{
}

/// The segment of a position is the index of the first boundary that is
/// greater than the position: all boundaries before it are at or below the
/// position, and it is the number of boundaries only if none is greater.
pub proof fn lemma_segment_is_first_greater(points: Seq<usize>, i: int)
    ensures
        segment_of(points, i) <= points.len(),
        forall|j: int| 0 <= j < segment_of(points, i) ==> #[trigger] points[j] <= i,
        segment_of(points, i) < points.len() ==> i < points[segment_of(points, i) as int],
    decreases points.len(),
{
    if points.len() > 0 && i >= points[0] {
        let rest = points.drop_first();
        lemma_segment_is_first_greater(rest, i);
        assert forall|j: int| 0 <= j < segment_of(points, i) implies #[trigger] points[j]
            <= i by {
            if j > 0 {
                assert(points[j] == rest[j - 1]);
            }
        }
        let k = segment_of(rest, i) as int;
        if k < rest.len() {
            assert(points[k + 1] == rest[k]);
        }
    }
}

/// The converse: an index with nothing but boundaries at or below the
/// position before it, and none or a greater boundary at it, is the segment of
/// the position.
pub proof fn lemma_segment_after(points: Seq<usize>, i: int, k: int)
    requires
        0 <= k <= points.len(),
        forall|j: int| 0 <= j < k ==> #[trigger] points[j] <= i,
        k < points.len() ==> i < points[k],
    ensures
        segment_of(points, i) == k,
    decreases k,
{
    if k > 0 {
        let rest = points.drop_first();
        assert forall|j: int| 0 <= j < k - 1 implies #[trigger] rest[j] <= i by {
            assert(rest[j] == points[j + 1]);
        }
        if k < points.len() {
            assert(rest[k - 1] == points[k]);
        }
        lemma_segment_after(rest, i, k - 1);
    }
}

/// Valid boundaries ascend strictly.
pub proof fn lemma_valid_points_ascend(points: Seq<usize>, n: nat, j: int, k: int)
    requires
        valid_cross_points(points, n),
        0 <= j <= k < points.len(),
    ensures
        points[j] <= points[k],
        j < k ==> points[j] < points[k],
    decreases k - j,
{
    if j < k {
        lemma_valid_points_ascend(points, n, j, k - 1);
        assert(step_to(points, k) >= 1);
    }
}

/// Valid boundaries lie from 1 up to the number of positions.
pub proof fn lemma_valid_points_in_range(points: Seq<usize>, n: nat, j: int)
    requires
        valid_cross_points(points, n),
        0 <= j < points.len(),
    ensures
        1 <= points[j] <= n,
{
    assert(step_to(points, 0) >= 1);
    lemma_valid_points_ascend(points, n, 0, j);
    lemma_valid_points_ascend(points, n, j, points.len() - 1);
}

/// Valid boundaries close every position: each one has a boundary greater
/// than it, so its segment is one that a boundary ends.
pub proof fn lemma_valid_points_close_every_position(points: Seq<usize>, n: nat, i: int)
    requires
        valid_cross_points(points, n),
        i < n,
    ensures
        segment_of(points, i) < points.len(),
{
    lemma_segment_is_first_greater(points, i);
    if segment_of(points, i) == points.len() {
        assert(points[points.len() - 1] <= i);
    }
}

/// With valid boundaries the segments are what the boundaries mark off: a
/// position from the boundary before `points[j]` up to, but not including,
/// `points[j]` lies in segment `j`.
pub proof fn lemma_segment_between_boundaries(points: Seq<usize>, n: nat, j: int, i: int)
    requires
        valid_cross_points(points, n),
        0 <= j < points.len(),
        points[j] - step_to(points, j) <= i < points[j],
    ensures
        segment_of(points, i) == j,
{
    lemma_segment_is_first_greater(points, i);
    let k = segment_of(points, i) as int;
    if k > j {
        assert(points[j] <= i);
    }
    if k < j {
        lemma_valid_points_ascend(points, n, k, j - 1);
    }
}

/// Whatever the strategy and whatever it drew, both children are as long as
/// the shorter parent.
pub proof fn lemma_children_length<T>(
    strategy: CrossoverFunctions,
    a: Seq<T>,
    b: Seq<T>,
    first: Seq<T>,
    second: Seq<T>,
)
    requires
        crosses(strategy, a, b, first, second),
    ensures
        first.len() == shared_len(a, b),
        second.len() == shared_len(a, b),
{
}

/// Whatever the strategy and whatever it drew, two parents with the same
/// genes have two children with those genes.
pub proof fn lemma_identical_parents<T>(
    strategy: CrossoverFunctions,
    a: Seq<T>,
    first: Seq<T>,
    second: Seq<T>,
)
    requires
        crosses(strategy, a, a, first, second),
    ensures
        first == a,
        second == a,
{
    assert(first =~= a);
    assert(second =~= a);
}

/// Whatever the strategy and whatever it drew, at every shared position the
/// two children hold the two parents' genes of that position, one each. So
/// nothing that a parent holds beyond the shared length reaches a child.
pub proof fn lemma_children_exchange_genes<T>(
    strategy: CrossoverFunctions,
    a: Seq<T>,
    b: Seq<T>,
    first: Seq<T>,
    second: Seq<T>,
    i: int,
)
    requires
        crosses(strategy, a, b, first, second),
        0 <= i < shared_len(a, b),
    ensures
        (first[i] == a[i] && second[i] == b[i]) || (first[i] == b[i] && second[i] == a[i]),
{
}

/// Whatever the strategy and whatever it drew, two parents that agree at
/// every shared position have two children that are that shared part.
pub proof fn lemma_agreeing_parents<T>(
    strategy: CrossoverFunctions,
    a: Seq<T>,
    b: Seq<T>,
    first: Seq<T>,
    second: Seq<T>,
)
    requires
        crosses(strategy, a, b, first, second),
        forall|i: int| 0 <= i < shared_len(a, b) ==> a[i] == b[i],
    ensures
        first == a.subrange(0, shared_len(a, b) as int),
        second == a.subrange(0, shared_len(a, b) as int),
{
    let shared = a.subrange(0, shared_len(a, b) as int);
    lemma_children_length(strategy, a, b, first, second);
    assert forall|i: int| 0 <= i < shared_len(a, b) implies first[i] == shared[i] && second[i]
        == shared[i] by {
        lemma_children_exchange_genes(strategy, a, b, first, second, i);
    }
    assert(first =~= shared);
    assert(second =~= shared);
}

} // verus!
