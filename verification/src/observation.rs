//! The [`Observable`] and [`ObservableFeatures`] capabilities, their laws,
//! and blanket conformances for the standard sequence-shaped containers.

use vstd::prelude::*;
use vstd::slice::slice_index_get;

verus! {

/// An `Observable` entity is either in a *present* or an *excluded* state in
/// the investigated item.
///
/// For instance, a phenotypic feature such as polydactyly can either be
/// present or excluded in the study subject. Exactly one of the two states
/// holds for a given value: exclusion is defined as the negation of presence.
pub trait Observable {
    /// Presence of the feature, as a mathematical predicate over the value.
    spec fn present_spec(&self) -> bool;

    /// Test if the feature was observed in one or more items.
    fn is_present(&self) -> (r: bool)
        ensures
            r == self.present_spec(),
    ;

    /// Test if the feature was not observed in any of the items.
    ///
    /// Exclusion is the logical negation of presence. The `ensures` clause
    /// binds every implementation, so overriding the default cannot break
    /// the complementarity invariant.
    fn is_excluded(&self) -> (r: bool)
        ensures
            r == !self.present_spec(),
    {
        !self.is_present()
    }
}

/// The sequence of values a sequence of references points at, in order.
pub open spec fn deref_seq<T>(s: Seq<&T>) -> Seq<T> {
    s.map_values(|f: &T| *f)
}

/// The subsequence of `s` whose elements are present, in the order of `s`.
pub open spec fn present_filter<T: Observable>(s: Seq<T>) -> Seq<T> {
    s.filter(|f: T| f.present_spec())
}

/// The subsequence of `s` whose elements are excluded, in the order of `s`.
pub open spec fn excluded_filter<T: Observable>(s: Seq<T>) -> Seq<T> {
    s.filter(|f: T| !f.present_spec())
}

proof fn lemma_present_filter_push<T: Observable>(s: Seq<T>, x: T)
    ensures
        x.present_spec() ==> present_filter(s.push(x)) == present_filter(s).push(x),
        !x.present_spec() ==> present_filter(s.push(x)) == present_filter(s),
{
    reveal(Seq::filter);
    assert(s.push(x).drop_last() =~= s);
    assert(s.push(x).last() == x);
}

proof fn lemma_excluded_filter_push<T: Observable>(s: Seq<T>, x: T)
    ensures
        !x.present_spec() ==> excluded_filter(s.push(x)) == excluded_filter(s).push(x),
        x.present_spec() ==> excluded_filter(s.push(x)) == excluded_filter(s),
{
    reveal(Seq::filter);
    assert(s.push(x).drop_last() =~= s);
    assert(s.push(x).last() == x);
}

/// For every `Observable` value, presence and exclusion can never agree:
/// `is_present` returns `present_spec` and `is_excluded` returns its
/// negation, so exactly one of the two queries holds.
pub proof fn lemma_presence_exclusion_complementary<T: Observable>(f: &T)
    ensures
        f.present_spec() != !f.present_spec(),
{
}

/// The present and the excluded features partition the container: their
/// counts always sum to the total element count.
pub proof fn lemma_partition_count<T: Observable>(s: Seq<T>)
    ensures
        present_filter(s).len() + excluded_filter(s).len() == s.len(),
    decreases s.len(),
{
    if s.len() > 0 {
        let rest = s.drop_last();
        let x = s.last();
        lemma_partition_count::<T>(rest);
        lemma_present_filter_push(rest, x);
        lemma_excluded_filter_push(rest, x);
        assert(rest.push(x) =~= s);
    } else {
        reveal(Seq::filter);
    }
}

/// The present and the excluded features together enumerate every element of
/// the container exactly once: as multisets, the two filtered views add up
/// to the whole container.
pub proof fn lemma_partition_multiset<T: Observable>(s: Seq<T>)
    ensures
        present_filter(s).to_multiset().add(excluded_filter(s).to_multiset()) == s.to_multiset(),
    decreases s.len(),
{
    broadcast use vstd::seq_lib::group_to_multiset_ensures;
    broadcast use vstd::multiset::group_multiset_axioms;

    if s.len() > 0 {
        let rest = s.drop_last();
        let x = s.last();
        lemma_partition_multiset::<T>(rest);
        lemma_present_filter_push(rest, x);
        lemma_excluded_filter_push(rest, x);
        assert(rest.push(x) =~= s);
        assert(present_filter(s).to_multiset().add(excluded_filter(s).to_multiset())
            =~= s.to_multiset());
    } else {
        reveal(Seq::filter);
        assert(present_filter(s).to_multiset().add(excluded_filter(s).to_multiset())
            =~= s.to_multiset());
    }
}

/// Filtered views are restartable: the `present_features` /
/// `excluded_features` contracts determine the result sequence from the
/// backing elements alone, so any two invocations on the same unmodified
/// container yield identical contents.
pub proof fn lemma_filtered_views_restartable<T: Observable>(s: Seq<T>, r1: Seq<T>, r2: Seq<T>)
    requires
        (r1 == present_filter(s) && r2 == present_filter(s))
            || (r1 == excluded_filter(s) && r2 == excluded_filter(s)),
    ensures
        r1 == r2,
{
}

/// Common functionalities for containers of [`Observable`] features.
pub trait ObservableFeatures {
    /// The feature.
    type Feature: Observable;

    /// The elements of the backing container, in iteration order.
    spec fn obs_seq(&self) -> Seq<Self::Feature>;

    /// Get the features that were observed in the investigated item, in the
    /// backing container's order.
    fn present_features(&self) -> (r: Vec<&Self::Feature>)
        ensures
            deref_seq(r@) == present_filter(self.obs_seq()),
    ;

    /// Get the number of observed features.
    fn present_feature_count(&self) -> (r: usize)
        ensures
            r == present_filter(self.obs_seq()).len(),
    {
        let v = self.present_features();
        proof {
            assert(deref_seq(v@).len() == v@.len());
        }
        v.len()
    }

    /// Get the features whose presence was specifically excluded in the
    /// investigated item, in the backing container's order.
    fn excluded_features(&self) -> (r: Vec<&Self::Feature>)
        ensures
            deref_seq(r@) == excluded_filter(self.obs_seq()),
    ;

    /// Get the number of features whose presence was specifically excluded.
    fn excluded_feature_count(&self) -> (r: usize)
        ensures
            r == excluded_filter(self.obs_seq()).len(),
    {
        let v = self.excluded_features();
        proof {
            assert(deref_seq(v@).len() == v@.len());
        }
        v.len()
    }
}

fn filter_present<'a, T: Observable>(s: &'a [T]) -> (r: Vec<&'a T>)
    ensures
        deref_seq(r@) == present_filter(s@),
{
    let mut r: Vec<&'a T> = Vec::new();
    let n: usize = s.len();
    let mut i: usize = 0;
    while i < n
        invariant
            i <= n,
            n == s@.len(),
            deref_seq(r@) == present_filter(s@.take(i as int)),
        decreases n - i,
    {
        let ghost prefix = s@.take(i as int);
        let ghost before = r@;
        let x: &'a T = slice_index_get(s, i);
        if x.is_present() {
            r.push(x);
        }
        i = i + 1;
        proof {
            assert(s@.take(i as int) =~= prefix.push(s@[i - 1]));
            lemma_present_filter_push(prefix, s@[i - 1]);
            if s@[i - 1].present_spec() {
                assert(deref_seq(r@) =~= deref_seq(before).push(*x));
            }
        }
    }
    proof {
        assert(s@.take(n as int) =~= s@);
    }
    r
}

fn filter_excluded<'a, T: Observable>(s: &'a [T]) -> (r: Vec<&'a T>)
    ensures
        deref_seq(r@) == excluded_filter(s@),
{
    let mut r: Vec<&'a T> = Vec::new();
    let n: usize = s.len();
    let mut i: usize = 0;
    while i < n
        invariant
            i <= n,
            n == s@.len(),
            deref_seq(r@) == excluded_filter(s@.take(i as int)),
        decreases n - i,
    {
        let ghost prefix = s@.take(i as int);
        let ghost before = r@;
        let x: &'a T = slice_index_get(s, i);
        if x.is_excluded() {
            r.push(x);
        }
        i = i + 1;
        proof {
            assert(s@.take(i as int) =~= prefix.push(s@[i - 1]));
            lemma_excluded_filter_push(prefix, s@[i - 1]);
            if !s@[i - 1].present_spec() {
                assert(deref_seq(r@) =~= deref_seq(before).push(*x));
            }
        }
    }
    proof {
        assert(s@.take(n as int) =~= s@);
    }
    r
}

impl<T: Observable> ObservableFeatures for Vec<T> {
    type Feature = T;

    open spec fn obs_seq(&self) -> Seq<T> {
        self@
    }

    fn present_features(&self) -> (r: Vec<&T>) {
        filter_present(self.as_slice())
    }

    fn excluded_features(&self) -> (r: Vec<&T>) {
        filter_excluded(self.as_slice())
    }
}

impl<T: Observable, const N: usize> ObservableFeatures for [T; N] {
    type Feature = T;

    open spec fn obs_seq(&self) -> Seq<T> {
        self@
    }

    fn present_features(&self) -> (r: Vec<&T>) {
        filter_present(self.as_slice())
    }

    fn excluded_features(&self) -> (r: Vec<&T>) {
        filter_excluded(self.as_slice())
    }
}

impl<T: Observable> ObservableFeatures for &[T] {
    type Feature = T;

    open spec fn obs_seq(&self) -> Seq<T> {
        self@
    }

    fn present_features(&self) -> (r: Vec<&T>) {
        filter_present(self)
    }

    fn excluded_features(&self) -> (r: Vec<&T>) {
        filter_excluded(self)
    }
}

} // verus!
