//! An experimental module with example implementations.

use vstd::prelude::*;

use crate::model::Fraction;
use crate::observation::Observable;

verus! {

/// Declares `ontolius::TermId`, the compact identifier of an ontology
/// concept, so that it can be stored and handed back. The library treats it
/// as an opaque value and never looks inside.
#[verifier::external_type_specification]
#[verifier::external_body]
pub struct ExTermId(ontolius::TermId);

/// Relies on the derived `Clone` of `ontolius::TermId`: cloning the
/// identifier (as the derived `Clone` of [`SimplePhenotypicFeature`] does)
/// reproduces the same identifier value, field for field.
pub assume_specification[ <ontolius::TermId as Clone>::clone ](t: &ontolius::TermId) -> (r:
    ontolius::TermId)
    ensures
        r == *t,
;

/// A phenotypic feature identified by an ontology term, together with the
/// frequency fraction in which it was observed. The feature is present
/// exactly when the fraction's numerator is positive.
#[derive(Debug, Clone, PartialEq, Eq)]
pub struct SimplePhenotypicFeature {
    identifier: ontolius::TermId,
    fraction: Fraction,
}

impl SimplePhenotypicFeature {
    /// The stored term identifier, as an abstract value.
    pub closed spec fn id_spec(self) -> ontolius::TermId {
        self.identifier
    }

    /// The stored frequency fraction, as an abstract value.
    pub closed spec fn fraction_spec(self) -> Fraction {
        self.fraction
    }

    /// Build a feature from its term identifier and an already validated
    /// frequency fraction. Total: nothing is re-validated here.
    pub fn new(identifier: ontolius::TermId, fraction: Fraction) -> (r: Self)
        ensures
            r.id_spec() == identifier,
            r.fraction_spec() == fraction,
    {
        SimplePhenotypicFeature { identifier, fraction }
    }

    /// The term identifier of this feature.
    pub fn identifier(&self) -> (r: &ontolius::TermId)
        ensures
            *r == self.id_spec(),
    {
        &self.identifier
    }
}

impl Observable for SimplePhenotypicFeature {
    open spec fn present_spec(&self) -> bool {
        self.fraction_spec().num() > 0
    }

    fn is_present(&self) -> (r: bool) {
        self.fraction.n() > 0
    }
}

} // verus!
