//! A genotype that is nothing but its genes.

use crate::genotype::Genotype;
use vstd::prelude::*;

verus! {

/// The plainest genotype: a vector of genes that can be copied bit by bit.
#[derive(Debug, PartialEq, Eq)]
pub struct Chromosome<T> {
    genes: Vec<T>,
}

impl<T> View for Chromosome<T> {
    type V = Seq<T>;

    closed spec fn view(&self) -> Seq<T> {
        self.genes@
    }
}

impl<T> Chromosome<T> {
    /// The chromosome made of `genes`, in that order.
    pub fn new(genes: Vec<T>) -> (chromosome: Self)
        ensures
            chromosome@ == genes@,
    {
        Chromosome { genes }
    }

    /// The genes, in order.
    pub fn genes(&self) -> (genes: &Vec<T>)
        ensures
            genes@ == self@,
    {
        &self.genes
    }
}

impl<T: Copy> Clone for Chromosome<T> {
    fn clone(&self) -> (copy: Self)
        ensures
            copy@ == self@,
    {
        let mut genes: Vec<T> = Vec::with_capacity(self.genes.len());
        let mut i: usize = 0;
        while i < self.genes.len()
            invariant
                i <= self.genes.len(),
                genes@ == self.genes@.subrange(0, i as int),
            decreases self.genes.len() - i,
        {
            genes.push(self.genes[i]);
            i += 1;
        }
        assert(genes@ == self.genes@);
        Chromosome { genes }
    }
}

impl<T: Copy + PartialEq> Genotype<T> for Chromosome<T> {
    fn length(&self) -> (n: usize) {
        self.genes.len()
    }

    fn into_genes(self) -> (genes: Vec<T>) {
        self.genes
    }

    fn rebuild(&mut self, genes: Vec<T>) {
        self.genes = genes;
    }

    proof fn clone_keeps_genes(source: Self, copy: Self) {
    }
}

} // verus!
