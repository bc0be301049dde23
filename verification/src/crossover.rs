//! The crossover operator and the three strategies that come with it.

use crate::error::CrossoverError;
use crate::genotype::{copy_of, Genotype};
use crate::laws::{lemma_children_length, lemma_identical_parents, lemma_segment_after};
use crate::model::{
    blend, multi_point_child, multi_point_mask, parity_mask, shared_len, single_point_child,
    single_point_mask, uniform_child, valid_cross_points,
};
use crate::random::{draw_cross_point, draw_cross_points, entropy_rng};
use rand::rngs::SmallRng;
use vstd::prelude::*;

verus! {

/// A way of making two children out of two parents.
///
/// The parents are only read. The children are new genotypes that the caller
/// owns. An implementor holds no state that a call changes, so one value can
/// serve any number of threads at once.
pub trait Crossover<T: PartialEq, G: Genotype<T>>: Send + Sync {
    /// Generates two children combining the two selected individuals, or says
    /// why it cannot. Whatever the way of combining, both children are as
    /// long as the shorter parent.
    fn cross(&self, ind1: &G, ind2: &G) -> (result: Result<(G, G), CrossoverError>)
        ensures
            result matches Ok(children) ==> children.0@.len() == shared_len(ind1@, ind2@)
                && children.1@.len() == shared_len(ind1@, ind2@),
    ;
}

/// The crossover strategies provided.
#[derive(Debug, Clone, Copy, PartialEq, Eq)]
pub enum CrossoverFunctions {
    /// One cut at a random place strictly inside the parents. The children
    /// exchange what lies behind it.
    SingleCrossPoint,
    /// Several cuts at random places. The children exchange every second
    /// segment.
    MultiCrossPoint,
    /// The children exchange every second gene: the odd positions. No
    /// randomness is involved.
    UniformCross,
}

/// Whether `strategy` refuses the parents `a` and `b`: the two randomised
/// strategies need a place to cut, and so at least two shared positions.
pub open spec fn refuses<T>(strategy: CrossoverFunctions, a: Seq<T>, b: Seq<T>) -> bool {
    !(strategy is UniformCross) && shared_len(a, b) < 2
}

/// Whether `first` and `second` are children that `strategy` can give to the
/// parents `a` and `b`, for some outcome of its draws.
pub open spec fn crosses<T>(
    strategy: CrossoverFunctions,
    a: Seq<T>,
    b: Seq<T>,
    first: Seq<T>,
    second: Seq<T>,
) -> bool {
    match strategy {
        CrossoverFunctions::SingleCrossPoint => exists|cross_point: int|
            {
                &&& 1 <= cross_point < shared_len(a, b)
                &&& first == #[trigger] single_point_child(a, b, cross_point)
                &&& second == single_point_child(b, a, cross_point)
            },
        CrossoverFunctions::MultiCrossPoint => exists|points: Seq<usize>|
            {
                &&& valid_cross_points(points, shared_len(a, b))
                &&& first == #[trigger] multi_point_child(a, b, points)
                &&& second == multi_point_child(b, a, points)
            },
        CrossoverFunctions::UniformCross => {
            &&& first == uniform_child(a, b)
            &&& second == uniform_child(b, a)
        },
    }
}

/// The smaller of two lengths.
fn shorter(a: usize, b: usize) -> (n: usize)
    ensures
        n == if a <= b { a } else { b },
{
    if a <= b {
        a
    } else {
        b
    }
}

/// The two children that `mask` describes: the first takes its parent's gene
/// where the mask holds, the second where it does not.
fn recombine<T: PartialEq, G: Genotype<T>>(ind1: &G, ind2: &G, mask: &Vec<bool>) -> (children: (
    G,
    G,
))
    requires
        mask@.len() == shared_len(ind1@, ind2@),
    ensures
        children.0@ == blend(ind1@, ind2@, mask@),
        children.1@ == blend(ind2@, ind1@, mask@),
{
    let n = mask.len();
    let mut first = copy_of(ind1).into_genes();
    let mut second = copy_of(ind2).into_genes();
    first.truncate(n);
    second.truncate(n);
    let mut i: usize = 0;
    while i < n
        invariant
            i <= n,
            n == mask@.len(),
            n == shared_len(ind1@, ind2@),
            first@.len() == n,
            second@.len() == n,
            forall|j: int|
                0 <= j < i ==> first@[j] == (if mask@[j] {
                    ind1@[j]
                } else {
                    ind2@[j]
                }),
            forall|j: int|
                0 <= j < i ==> second@[j] == (if mask@[j] {
                    ind2@[j]
                } else {
                    ind1@[j]
                }),
            forall|j: int| i <= j < n ==> first@[j] == ind1@[j] && second@[j] == ind2@[j],
        decreases n - i,
    {
        if !mask[i] {
            core::mem::swap(&mut first[i], &mut second[i]);
        }
        i += 1;
    }
    assert(first@ == blend(ind1@, ind2@, mask@));
    assert(second@ == blend(ind2@, ind1@, mask@));
    let mut child1 = copy_of(ind1);
    child1.rebuild(first);
    let mut child2 = copy_of(ind2);
    child2.rebuild(second);
    (child1, child2)
}

/// The mask of one cut over `n` positions.
fn single_point_flags(n: usize, cross_point: usize) -> (mask: Vec<bool>)
    ensures
        mask@ == single_point_mask(n as nat, cross_point as int),
{
    let mut mask: Vec<bool> = Vec::with_capacity(n);
    let mut i: usize = 0;
    while i < n
        invariant
            i <= n,
            mask@ == single_point_mask(i as nat, cross_point as int),
        decreases n - i,
    {
        mask.push(i < cross_point);
        i += 1;
        assert(mask@ == single_point_mask(i as nat, cross_point as int));
    }
    mask
}

/// The mask of alternation by position over `n` positions.
fn parity_flags(n: usize) -> (mask: Vec<bool>)
    ensures
        mask@ == parity_mask(n as nat),
{
    let mut mask: Vec<bool> = Vec::with_capacity(n);
    let mut i: usize = 0;
    while i < n
        invariant
            i <= n,
            mask@ == parity_mask(i as nat),
        decreases n - i,
    {
        mask.push(i % 2 == 0);
        i += 1;
        assert(mask@ == parity_mask(i as nat));
    }
    mask
}

/// The mask of the cuts at `points` over `n` positions.
///
/// The segment of a position is never before that of the position below it,
/// so one pass over the boundaries serves all positions.
fn multi_point_flags(n: usize, points: &Vec<usize>) -> (mask: Vec<bool>)
    ensures
        mask@ == multi_point_mask(n as nat, points@),
{
    let mut mask: Vec<bool> = Vec::with_capacity(n);
    let mut k: usize = 0;
    let mut i: usize = 0;
    while i < n
        invariant
            i <= n,
            k <= points@.len(),
            forall|j: int| 0 <= j < k ==> #[trigger] points@[j] < i,
            mask@ == multi_point_mask(i as nat, points@),
        decreases n - i,
    {
        while k < points.len() && points[k] <= i
            invariant
                k <= points@.len(),
                forall|j: int| 0 <= j < k ==> #[trigger] points@[j] <= i,
            decreases points@.len() - k,
        {
            k += 1;
        }
        proof {
            lemma_segment_after(points@, i as int, k as int);
        }
        mask.push(k == points.len() || k % 2 == 0);
        i += 1;
        assert(mask@ == multi_point_mask(i as nat, points@));
    }
    mask
}

/// The children of a single-point crossover cut at `cross_point`.
///
/// The first child is `ind1` before the cut and `ind2` from it on, the second
/// child the other way round, both as long as the shorter parent. A cut at 0
/// exchanges everything, a cut at or beyond the shared length nothing.
pub fn single_point_children<T: PartialEq, G: Genotype<T>>(
    ind1: &G,
    ind2: &G,
    cross_point: usize,
) -> (children: (G, G))
    ensures
        children.0@ == single_point_child(ind1@, ind2@, cross_point as int),
        children.1@ == single_point_child(ind2@, ind1@, cross_point as int),
{
    let n = shorter(ind1.length(), ind2.length());
    let mask = single_point_flags(n, cross_point);
    recombine(ind1, ind2, &mask)
}

/// The children of a multi-point crossover with the boundaries `points`.
///
/// A position belongs to the segment that the first boundary greater than it
/// closes. The first child is `ind1` in the first segment, `ind2` in the
/// second, and so on in turn; the second child the other way round. A
/// position that no boundary closes stays with the child's own parent.
pub fn multi_point_children<T: PartialEq, G: Genotype<T>>(
    ind1: &G,
    ind2: &G,
    points: &Vec<usize>,
) -> (children: (G, G))
    ensures
        children.0@ == multi_point_child(ind1@, ind2@, points@),
        children.1@ == multi_point_child(ind2@, ind1@, points@),
{
    let n = shorter(ind1.length(), ind2.length());
    let mask = multi_point_flags(n, points);
    recombine(ind1, ind2, &mask)
}

/// The children of a uniform crossover.
///
/// The first child is `ind1` at the even positions and `ind2` at the odd
/// ones, the second child the other way round.
pub fn uniform_children<T: PartialEq, G: Genotype<T>>(ind1: &G, ind2: &G) -> (children: (G, G))
    ensures
        children.0@ == uniform_child(ind1@, ind2@),
        children.1@ == uniform_child(ind2@, ind1@),
{
    let n = shorter(ind1.length(), ind2.length());
    let mask = parity_flags(n);
    recombine(ind1, ind2, &mask)
}

impl CrossoverFunctions {
    /// Crosses `ind1` and `ind2`, taking every draw from `rng`.
    ///
    /// The two randomised strategies refuse parents that share fewer than two
    /// positions; the uniform one takes any. Otherwise the children are those
    /// of the strategy for the cut, or the boundaries, that were drawn.
    pub fn cross_with<T: PartialEq, G: Genotype<T>>(
        &self,
        rng: &mut SmallRng,
        ind1: &G,
        ind2: &G,
    ) -> (result: Result<(G, G), CrossoverError>)
        ensures
            refuses(*self, ind1@, ind2@) <==> result is Err,
            result matches Err(e) ==> e == CrossoverError::GenotypeTooShort,
            result matches Ok(children) ==> crosses(
                *self,
                ind1@,
                ind2@,
                children.0@,
                children.1@,
            ),
            result matches Ok(children) ==> children.0@.len() == shared_len(ind1@, ind2@)
                && children.1@.len() == shared_len(ind1@, ind2@),
            result matches Ok(children) ==> (ind1@ == ind2@ ==> children.0@ == ind1@
                && children.1@ == ind1@),
    {
        let n = shorter(ind1.length(), ind2.length());
        let result = match self {
            CrossoverFunctions::SingleCrossPoint => {
                match draw_cross_point(rng, n) {
                    Ok(cross_point) => Ok(single_point_children(ind1, ind2, cross_point)),
                    Err(e) => Err(e),
                }
            },
            CrossoverFunctions::MultiCrossPoint => {
                match draw_cross_points(rng, n) {
                    Ok(points) => Ok(multi_point_children(ind1, ind2, &points)),
                    Err(e) => Err(e),
                }
            },
            CrossoverFunctions::UniformCross => Ok(uniform_children(ind1, ind2)),
        };
        proof {
            if let Ok(children) = &result {
                lemma_children_length(*self, ind1@, ind2@, children.0@, children.1@);
                if ind1@ == ind2@ {
                    lemma_identical_parents(*self, ind1@, children.0@, children.1@);
                }
            }
        }
        result
    }
}

impl<T: PartialEq, G: Genotype<T>> Crossover<T, G> for CrossoverFunctions {
    /// Crosses `ind1` and `ind2` with a generator that is seeded afresh from
    /// the operating system for this call, as
    /// [`cross_with`](CrossoverFunctions::cross_with) does with a generator of
    /// the caller's. Seeding panics if the operating system has no entropy to
    /// give.
    fn cross(&self, ind1: &G, ind2: &G) -> (result: Result<(G, G), CrossoverError>)
        ensures
            refuses(*self, ind1@, ind2@) <==> result is Err,
            result matches Err(e) ==> e == CrossoverError::GenotypeTooShort,
            result matches Ok(children) ==> crosses(
                *self,
                ind1@,
                ind2@,
                children.0@,
                children.1@,
            ),
            result matches Ok(children) ==> children.0@.len() == shared_len(ind1@, ind2@)
                && children.1@.len() == shared_len(ind1@, ind2@),
            result matches Ok(children) ==> (ind1@ == ind2@ ==> children.0@ == ind1@
                && children.1@ == ind1@),
    {
        let mut rng = entropy_rng();
        self.cross_with(&mut rng, ind1, ind2)
    }
}

} // verus!
