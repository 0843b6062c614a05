//! The [`Fraction`] value type: a validated *n of m* frequency.

use vstd::prelude::*;

verus! {

/// A `Fraction` represents the *n* of *m* frequency of a feature in one or
/// more annotated items: the feature was present in *n* out of *m*
/// investigated items.
///
/// The counts are accessible via the [`Fraction::n`] and [`Fraction::m`]
/// methods. The numerator is always less than or equal to the denominator;
/// both may be `0`. The only way to build a `Fraction` is the validating
/// [`Fraction::try_from`], so every reachable value satisfies
/// [`Fraction::wf`].
#[derive(Debug, Clone, PartialEq, Eq, Structural)]
pub struct Fraction {
    n: u32,
    /// The total count of annotated items investigated for presence/absence
    /// of the feature.
    m: u32,
}

impl Fraction {
    /// The numerator: how many items showed the feature.
    pub closed spec fn num(self) -> u32 {
        self.n
    }

    /// The denominator: how many items were investigated.
    pub closed spec fn denom(self) -> u32 {
        self.m
    }

    /// Well-formedness: the numerator never exceeds the denominator.
    pub open spec fn wf(self) -> bool {
        self.num() <= self.denom()
    }

    /// Get the value of the numerator.
    pub fn n(&self) -> (r: u32)
        ensures
            r == self.num(),
    {
        self.n
    }

    /// Get the value of the denominator.
    pub fn m(&self) -> (r: u32)
        ensures
            r == self.denom(),
    {
        self.m
    }

    /// Convert a pair with numerator and denominator into a `Fraction`.
    ///
    /// Succeeds exactly when the numerator is less than or equal to the
    /// denominator; otherwise reports a validation error. This is the only
    /// entry point that establishes the invariant.
    pub fn try_from(value: (u32, u32)) -> (r: Result<Fraction, &'static str>)
        ensures
            r is Ok <==> value.0 <= value.1,
            (r matches Ok(f) ==> f.num() == value.0 && f.denom() == value.1 && f.wf()),
            (r matches Err(msg) ==> msg@ == "Numerator must be less than or equal to denominator!"@),
    {
        let (numerator, denominator) = value;
        if numerator <= denominator {
            Ok(Fraction { n: numerator, m: denominator })
        } else {
            Err("Numerator must be less than or equal to denominator!")
        }
    }

    /// Make a new `Fraction` by summing up the *n* and *m* values of the two
    /// operands. Combining two well-formed fractions yields a well-formed
    /// fraction; the counts must not overflow the counting type.
    pub fn combine(self, other: Fraction) -> (r: Fraction)
        requires
            self.num() + other.num() <= u32::MAX,
            self.denom() + other.denom() <= u32::MAX,
        ensures
            r.num() == self.num() + other.num(),
            r.denom() == self.denom() + other.denom(),
            self.wf() && other.wf() ==> r.wf(),
    {
        Fraction { n: self.n + other.n, m: self.m + other.m }
    }
}

/// Equality on fractions is structural: two fractions are equal exactly when
/// their numerators and denominators agree, however each was constructed.
/// Hence it is reflexive and symmetric.
pub proof fn lemma_fraction_eq_structural(a: Fraction, b: Fraction)
    ensures
        (a == b) <==> (a.num() == b.num() && a.denom() == b.denom()),
        a == a,
        (a == b) <==> (b == a),
{
}

} // verus!
