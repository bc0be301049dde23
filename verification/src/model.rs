//! The mathematics of a crossover: which parent supplies which position.
//!
//! A crossover of parents `a` and `b` is described by a mask, one flag for
//! each position that both parents have. Where the flag holds, the first child
//! takes the gene of `a` and the second that of `b`; where it does not, the
//! other way round. The three strategies differ in their masks only.

use vstd::prelude::*;

verus! {

/// The number of positions that both parents have. Children are this long;
/// what the longer parent holds beyond it is left out.
pub open spec fn shared_len<T>(a: Seq<T>, b: Seq<T>) -> nat {
    if a.len() <= b.len() {
        a.len()
    } else {
        b.len()
    }
}

/// The child that takes position `i` from `a` where `mask[i]` holds and from
/// `b` where it does not. Its sibling is `blend(b, a, mask)`.
pub open spec fn blend<T>(a: Seq<T>, b: Seq<T>, mask: Seq<bool>) -> Seq<T> {
    Seq::new(
        shared_len(a, b),
        |i: int|
            if mask[i] {
                a[i]
            } else {
                b[i]
            },
    )
}

/// One cut: the positions before `cross_point` hold, the others do not.
pub open spec fn single_point_mask(n: nat, cross_point: int) -> Seq<bool> {
    Seq::new(n, |i: int| i < cross_point)
}

/// Alternation by position: even positions hold, odd ones do not.
pub open spec fn parity_mask(n: nat) -> Seq<bool> {
    Seq::new(n, |i: int| i % 2 == 0)
}

/// How many boundaries, from the front of `points`, lie at or before position
/// `i` without a break: the index of the first boundary strictly greater than
/// `i`, or the number of boundaries if there is none.
pub open spec fn segment_of(points: Seq<usize>, i: int) -> nat
    decreases points.len(),
{
    if points.len() == 0 || i < points[0] {
        0
    } else {
        1 + segment_of(points.drop_first(), i)
    }
}

/// Whether the first child takes position `i` from the first parent when the
/// cuts are at `points`: it does in the segments with an even index, and at a
/// position that no boundary closes.
pub open spec fn in_own_segment(points: Seq<usize>, i: int) -> bool {
    let k = segment_of(points, i);
    k == points.len() || k % 2 == 0
}

/// Several cuts: the segments that the boundaries `points` mark off hold and
/// fail in turn, the first one holding.
pub open spec fn multi_point_mask(n: nat, points: Seq<usize>) -> Seq<bool> {
    Seq::new(n, |i: int| in_own_segment(points, i))
}

/// The exclusive upper bound of one step between two boundaries of a
/// multi-point crossover over `n` positions: half of `n`, and 3 where that
/// half is 2 or less.
pub open spec fn point_maximum(n: nat) -> nat {
    if n / 2 <= 2 {
        3
    } else {
        n / 2
    }
}

/// The distance from the boundary before `points[j]` to `points[j]`, the
/// boundary before the first one being 0.
pub open spec fn step_to(points: Seq<usize>, j: int) -> int {
    if j == 0 {
        points[0] as int
    } else {
        points[j] - points[j - 1]
    }
}

/// What holds of the boundaries of every multi-point crossover over `n`
/// positions: there is at least one, the last one is `n`, and each lies at
/// least 1 and less than `point_maximum(n)` after the one before it.
pub open spec fn valid_cross_points(points: Seq<usize>, n: nat) -> bool {
    &&& points.len() >= 1
    &&& points.last() == n
    &&& forall|j: int|
        0 <= j < points.len() ==> 1 <= #[trigger] step_to(points, j) < point_maximum(n)
}

/// The first child of a single-point crossover of `a` and `b` cut at
/// `cross_point`: `a` before the cut, `b` from it on. The second child is the
/// same with the parents exchanged.
pub open spec fn single_point_child<T>(a: Seq<T>, b: Seq<T>, cross_point: int) -> Seq<T> {
    blend(a, b, single_point_mask(shared_len(a, b), cross_point))
}

/// The first child of a multi-point crossover of `a` and `b` with the
/// boundaries `points`: `a` in the first segment, `b` in the second, and so
/// on in turn. The second child is the same with the parents exchanged.
pub open spec fn multi_point_child<T>(a: Seq<T>, b: Seq<T>, points: Seq<usize>) -> Seq<T> {
    blend(a, b, multi_point_mask(shared_len(a, b), points))
}

/// The first child of a uniform crossover of `a` and `b`: `a` at the even
/// positions, `b` at the odd ones. The second child is the same with the
/// parents exchanged.
pub open spec fn uniform_child<T>(a: Seq<T>, b: Seq<T>) -> Seq<T> {
    blend(a, b, parity_mask(shared_len(a, b)))
}

} // verus!
