use vstd::prelude::*;

verus! {

/// A non-negative ratio of two integers, `numerator / denominator`, with a
/// denominator that is never zero.
///
/// A ratio of at most one serves as a probability (the rates at which
/// operators are applied); any ratio serves as a seeding weight.
#[derive(Debug, Clone, Copy)]
pub struct Ratio {
    numerator: u32,
    denominator: u32,
}

impl Ratio {
    #[verifier::type_invariant]
    spec fn well_formed(self) -> bool {
        self.denominator > 0
    }

    /// The numerator of the ratio.
    pub closed spec fn numer(self) -> nat {
        self.numerator as nat
    }

    /// The denominator of the ratio: at least one.
    pub closed spec fn denom(self) -> nat {
        self.denominator as nat
    }

    /// The ratio is at most one.
    pub open spec fn is_probability(self) -> bool {
        self.numer() <= self.denom()
    }

    /// `population_size * numer / denom`, rounded to the nearest integer, a
    /// half rounded up.
    pub open spec fn share_of(self, population_size: nat) -> nat {
        (2 * population_size * self.numer() + self.denom()) / (2 * self.denom())
    }

    /// Makes the ratio `numerator / denominator`; there is none with a zero
    /// denominator.
    pub fn new(numerator: u32, denominator: u32) -> (ratio: Option<Ratio>)
        ensures
            ratio.is_some() == (denominator > 0),
            ratio matches Some(r) ==> r.numer() == numerator && r.denom() == denominator,
    {
        if denominator == 0 {
            None
        } else {
            Some(Ratio { numerator, denominator })
        }
    }

    /// The ratio zero: as a probability, never.
    pub fn zero() -> (ratio: Ratio)
        ensures
            ratio.numer() == 0,
            ratio.denom() == 1,
    {
        Ratio { numerator: 0, denominator: 1 }
    }

    /// The ratio one: as a probability, always; as a weight, the whole.
    pub fn one() -> (ratio: Ratio)
        ensures
            ratio.numer() == 1,
            ratio.denom() == 1,
    {
        Ratio { numerator: 1, denominator: 1 }
    }

    /// Reads the numerator.
    pub fn numerator(&self) -> (n: u32)
        ensures
            n == self.numer(),
    {
        self.numerator
    }

    /// Reads the denominator.
    pub fn denominator(&self) -> (d: u32)
        ensures
            d == self.denom(),
            d > 0,
    {
        proof {
            use_type_invariant(self);
        }
        self.denominator
    }

    /// Tells whether the ratio is at most one.
    pub fn is_at_most_one(&self) -> (yes: bool)
        ensures
            yes == self.is_probability(),
    {
        self.numerator <= self.denominator
    }

    /// Computes the share of a population that this weight stands for:
    /// `population_size` times the ratio, rounded to the nearest integer, a
    /// half rounded up.
    pub fn rounded_share(&self, population_size: usize) -> (share: u128)
        ensures
            share == self.share_of(population_size as nat),
    {
        proof {
            use_type_invariant(self);
        }
        let size: u128 = population_size as u128;
        let n: u128 = self.numerator as u128;
        let d: u128 = self.denominator as u128;
        assert(2 * size * n + d <= 2 * 0xffff_ffff_ffff_ffff * 0xffff_ffff + 0xffff_ffff) by (nonlinear_arith)
            requires
                size <= 0xffff_ffff_ffff_ffff,
                n <= 0xffff_ffff,
                d <= 0xffff_ffff,
        ;
        assert(2 * size * n == 2 * (population_size as nat) * self.numer()) by (nonlinear_arith)
            requires
                size == population_size as nat,
                n == self.numer(),
        ;
        (2 * size * n + d) / (2 * d)
    }

    /// The share is the integer nearest to the exact product: twice the
    /// product lies within one denominator of twice the share times the
    /// denominator, the upper end excluded.
    pub proof fn share_is_nearest(self, population_size: nat)
        requires
            self.denom() > 0,
        ensures
            2 * self.denom() * self.share_of(population_size) <= 2 * population_size * self.numer()
                + self.denom(),
            2 * population_size * self.numer() + self.denom() < 2 * self.denom() * (self.share_of(
                population_size,
            ) + 1),
    {
        let total = 2 * population_size * self.numer() + self.denom();
        let step = 2 * self.denom();
        vstd::arithmetic::div_mod::lemma_fundamental_div_mod(total as int, step as int);
        vstd::arithmetic::div_mod::lemma_mod_bound(total as int, step as int);
        assert(step * (self.share_of(population_size) + 1) == step * self.share_of(population_size)
            + step) by (nonlinear_arith);
    }
}

} // verus!
