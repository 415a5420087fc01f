use crate::random::random_below;
use crate::solution::Solution;
use rand::rngs::ThreadRng;
use vstd::pervasive::cloned;
use vstd::prelude::*;

verus! {

/// A solution whose genes form an ordered sequence of one gene type, which can
/// be read and written in place.
pub trait AsVectorSolution {
    /// The type of a single gene.
    type Gene: Clone;

    /// The genes of the solution, in order, as contracts see them.
    open spec fn gene_seq(&self) -> Seq<Self::Gene> {
        arbitrary()
    }

    /// A clone has the genes of the solution it was cloned from.
    proof fn clone_keeps_genes(&self, copy: &Self) where Self: Clone
        requires
            cloned(*self, *copy),
        ensures
            copy.gene_seq() == self.gene_seq(),
    ;

    /// Reads the genes.
    fn genes(&self) -> (genes: &[Self::Gene])
        ensures
            genes@ == self.gene_seq(),
    ;

    /// Hands out the genes for writing in place: what is written through the
    /// slice is what the solution holds afterwards.
    fn genes_mut(&mut self) -> (genes: &mut [Self::Gene])
        ensures
            genes@ == old(self).gene_seq(),
            final(self).gene_seq() == final(genes)@,
    ;
}

/// A crossover: the making of two children from two parents.
pub trait CrossoverOperator<S: Solution> {
    /// The operator can cross the two parents. By default any two will do.
    open spec fn accepts(&self, parent1: S, parent2: S) -> bool {
        true
    }

    /// How the children that `crossover` returns relate to the parents. An
    /// operator that promises nothing relates all of them.
    open spec fn crosses(&self, parent1: S, parent2: S, children: (S, S)) -> bool {
        true
    }

    /// Makes two children from two parents.
    fn crossover(&self, rng: &mut ThreadRng, parent1: &S, parent2: &S) -> (children: (S, S))
        requires
            self.accepts(*parent1, *parent2),
        ensures
            self.crosses(*parent1, *parent2, children),
    ;
}

/// The sequence `own` with the positions from `from` up to, not including,
/// `to` taken from `other`.
pub open spec fn exchanged<G>(own: Seq<G>, other: Seq<G>, from: int, to: int) -> Seq<G> {
    Seq::new(own.len(), |j: int| if from <= j < to { other[j] } else { own[j] })
}

/// The two children have the genes of the two parents with the segment from
/// `from` up to `to` exchanged.
pub open spec fn segment_swapped<S: AsVectorSolution>(
    parent1: S,
    parent2: S,
    from: int,
    to: int,
    children: (S, S),
) -> bool {
    &&& children.0.gene_seq() == exchanged(parent1.gene_seq(), parent2.gene_seq(), from, to)
    &&& children.1.gene_seq() == exchanged(parent2.gene_seq(), parent1.gene_seq(), from, to)
}

/// The first parent has fewer than `least` genes, so that there is nothing to
/// exchange, or the two parents have equally many genes.
pub open spec fn same_length_or_short<S: AsVectorSolution>(
    parent1: S,
    parent2: S,
    least: nat,
) -> bool {
    parent1.gene_seq().len() < least || parent2.gene_seq().len() == parent1.gene_seq().len()
}

/// Exchanges the elements at the positions from `from` up to `to` between two
/// slices of equal length.
fn swap_segment<G>(first: &mut [G], second: &mut [G], from: usize, to: usize)
    requires
        old(first)@.len() == old(second)@.len(),
        from <= to <= old(first)@.len(),
    ensures
        final(first)@ == exchanged(old(first)@, old(second)@, from as int, to as int),
        final(second)@ == exchanged(old(second)@, old(first)@, from as int, to as int),
{
    let mut i: usize = from;
    while i < to
        invariant
            from <= i <= to,
            to <= first@.len(),
            first@.len() == old(first)@.len(),
            second@.len() == old(second)@.len(),
            first@.len() == second@.len(),
            first@ =~= exchanged(old(first)@, old(second)@, from as int, i as int),
            second@ =~= exchanged(old(second)@, old(first)@, from as int, i as int),
        decreases to - i,
    {
        core::mem::swap(&mut first[i], &mut second[i]);
        i += 1;
    }
}

/// Exchanges the gene segment from `from` up to `to` between two solutions of
/// equally many genes, in place. An empty segment leaves the genes as they
/// were.
pub fn swap_genes<S: AsVectorSolution>(first: &mut S, second: &mut S, from: usize, to: usize)
    requires
        old(first).gene_seq().len() == old(second).gene_seq().len(),
        from <= to <= old(first).gene_seq().len(),
    ensures
        segment_swapped(
            *old(first),
            *old(second),
            from as int,
            to as int,
            (*final(first), *final(second)),
        ),
{
    let genes1 = first.genes_mut();
    let genes2 = second.genes_mut();
    swap_segment(genes1, genes2, from, to);
}

/// One-point crossover: the children are clones of the parents that have
/// exchanged their genes from a random cut to the end.
pub struct OnePoint;

/// `children` come from one-point crossover of the two parents. With fewer
/// than two genes there is nothing to exchange and the children are clones of
/// the parents. Otherwise they have the genes of the parents with those from
/// some cut to the end exchanged; the cut leaves at least one gene on either
/// side.
pub open spec fn one_point_crossed<S: Solution + AsVectorSolution>(
    parent1: S,
    parent2: S,
    children: (S, S),
) -> bool {
    if parent1.gene_seq().len() < 2 {
        cloned(parent1, children.0) && cloned(parent2, children.1)
    } else {
        exists|cut: int|
            1 <= cut < parent1.gene_seq().len() && #[trigger] segment_swapped(
                parent1,
                parent2,
                cut,
                parent1.gene_seq().len() as int,
                children,
            )
    }
}

impl OnePoint {
    /// Parents of fewer than two genes have nothing to exchange: the children
    /// of one-point crossover are clones of them, with their genes.
    pub proof fn short_parents_are_cloned<S: Solution + AsVectorSolution>(
        parent1: S,
        parent2: S,
        children: (S, S),
    )
        requires
            one_point_crossed(parent1, parent2, children),
            parent1.gene_seq().len() < 2,
        ensures
            cloned(parent1, children.0),
            cloned(parent2, children.1),
            children.0.gene_seq() == parent1.gene_seq(),
            children.1.gene_seq() == parent2.gene_seq(),
    {
        parent1.clone_keeps_genes(&children.0);
        parent2.clone_keeps_genes(&children.1);
    }
}

impl<S> CrossoverOperator<S> for OnePoint where S: Solution + AsVectorSolution {
    /// The parents have equally many genes, unless the first has fewer than
    /// two.
    open spec fn accepts(&self, parent1: S, parent2: S) -> bool {
        same_length_or_short(parent1, parent2, 2)
    }

    open spec fn crosses(&self, parent1: S, parent2: S, children: (S, S)) -> bool {
        one_point_crossed(parent1, parent2, children)
    }

    /// Clones the parents, picks a cut between the first and the last gene,
    /// and exchanges the genes from the cut to the end. With fewer than two
    /// genes the clones are returned as they are.
    fn crossover(&self, rng: &mut ThreadRng, parent1: &S, parent2: &S) -> (children: (S, S)) {
        let mut child1 = parent1.clone();
        let mut child2 = parent2.clone();
        proof {
            parent1.clone_keeps_genes(&child1);
            parent2.clone_keeps_genes(&child2);
        }
        let len = child1.genes().len();
        if len < 2 {
            return (child1, child2);
        }
        let cut = random_below(rng, 1, len);
        swap_genes(&mut child1, &mut child2, cut, len);
        assert(segment_swapped(*parent1, *parent2, cut as int, len as int, (child1, child2)));
        (child1, child2)
    }
}

/// Two-point crossover: the children are clones of the parents that have
/// exchanged the genes between two random cuts.
pub struct TwoPoint;

/// `children` are what two cuts make of the two parents: clones of them where
/// the cuts are the same, and solutions with their genes, those from the first
/// cut up to the second exchanged, where the cuts differ.
pub open spec fn cut_between<S: Solution + AsVectorSolution>(
    parent1: S,
    parent2: S,
    point1: int,
    point2: int,
    children: (S, S),
) -> bool {
    if point1 == point2 {
        cloned(parent1, children.0) && cloned(parent2, children.1)
    } else {
        segment_swapped(parent1, parent2, point1, point2, children)
    }
}

/// `children` come from two-point crossover of the two parents. With fewer
/// than three genes there is nothing to exchange and the children are clones
/// of the parents. Otherwise they are what two cuts make of the parents: the
/// first cut leaves at least one gene before it and two from it on, the second
/// lies from the first up to the last gene.
pub open spec fn two_point_crossed<S: Solution + AsVectorSolution>(
    parent1: S,
    parent2: S,
    children: (S, S),
) -> bool {
    if parent1.gene_seq().len() < 3 {
        cloned(parent1, children.0) && cloned(parent2, children.1)
    } else {
        exists|point1: int, point2: int|
            {
                &&& 1 <= point1 < parent1.gene_seq().len() - 1
                &&& point1 <= point2 < parent1.gene_seq().len()
                &&& #[trigger] cut_between(parent1, parent2, point1, point2, children)
            }
    }
}

impl TwoPoint {
    /// Parents of fewer than three genes have nothing to exchange: the
    /// children of two-point crossover are clones of them, with their genes.
    pub proof fn short_parents_are_cloned<S: Solution + AsVectorSolution>(
        parent1: S,
        parent2: S,
        children: (S, S),
    )
        requires
            two_point_crossed(parent1, parent2, children),
            parent1.gene_seq().len() < 3,
        ensures
            cloned(parent1, children.0),
            cloned(parent2, children.1),
            children.0.gene_seq() == parent1.gene_seq(),
            children.1.gene_seq() == parent2.gene_seq(),
    {
        parent1.clone_keeps_genes(&children.0);
        parent2.clone_keeps_genes(&children.1);
    }
}

impl<S> CrossoverOperator<S> for TwoPoint where S: Solution + AsVectorSolution {
    /// The parents have equally many genes, unless the first has fewer than
    /// three.
    open spec fn accepts(&self, parent1: S, parent2: S) -> bool {
        same_length_or_short(parent1, parent2, 3)
    }

    open spec fn crosses(&self, parent1: S, parent2: S, children: (S, S)) -> bool {
        two_point_crossed(parent1, parent2, children)
    }

    /// Clones the parents, picks two cuts, and exchanges the genes between
    /// them. With fewer than three genes, or with two equal cuts, the clones
    /// are returned as they are.
    fn crossover(&self, rng: &mut ThreadRng, parent1: &S, parent2: &S) -> (children: (S, S)) {
        let mut child1 = parent1.clone();
        let mut child2 = parent2.clone();
        proof {
            parent1.clone_keeps_genes(&child1);
            parent2.clone_keeps_genes(&child2);
        }
        let len = child1.genes().len();
        if len < 3 {
            return (child1, child2);
        }
        let point1 = random_below(rng, 1, len - 1);
        let point2 = random_below(rng, point1, len);
        if point1 == point2 {
            assert(cut_between(*parent1, *parent2, point1 as int, point2 as int, (child1, child2)));
            return (child1, child2);
        }
        swap_genes(&mut child1, &mut child2, point1, point2);
        assert(cut_between(*parent1, *parent2, point1 as int, point2 as int, (child1, child2)));
        (child1, child2)
    }
}

} // verus!
