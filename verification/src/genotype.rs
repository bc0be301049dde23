//! What a crossover needs to know about a candidate solution.

use vstd::prelude::*;

verus! {

/// A candidate solution, seen as an ordered sequence of genes.
///
/// The view of a genotype is that sequence; nothing else about the
/// representation is of concern here. `Clone` gives an independent copy, and
/// [`clone_keeps_genes`](Genotype::clone_keeps_genes) obliges an implementor to
/// show that the copy carries the same genes.
pub trait Genotype<T: PartialEq>: Clone + View<V = Seq<T>> + Sized {
    /// The number of genes.
    fn length(&self) -> (n: usize)
        ensures
            n == self@.len(),
    ;

    /// Gives the genes away, in order.
    fn into_genes(self) -> (genes: Vec<T>)
        ensures
            genes@ == self@,
    ;

    /// Replaces the whole content by `genes`. The new length is that of
    /// `genes`, whatever the old one was.
    fn rebuild(&mut self, genes: Vec<T>)
        ensures
            final(self)@ == genes@,
    ;

    /// Whatever `clone` does to the rest of a genotype, the copy has the
    /// genes of the genotype it was made from.
    proof fn clone_keeps_genes(source: Self, copy: Self)
        requires
            cloned(source, copy),
        ensures
            copy@ == source@,
    ;
}

/// An independent copy of `individual`, with the same genes.
pub fn copy_of<T: PartialEq, G: Genotype<T>>(individual: &G) -> (copy: G)
    ensures
        copy@ == individual@,
{
    let copy = individual.clone();
    proof {
        G::clone_keeps_genes(*individual, copy);
    }
    copy
}

} // verus!
