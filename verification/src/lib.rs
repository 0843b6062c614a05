//! A minimal domain model for observed / excluded phenotypic features and the
//! simple frequency fractions that annotate them (e.g. a feature seen in
//! *3 of 10* investigated individuals).

mod model;
mod observation;
pub mod simple;

pub use model::Fraction;
pub use model::lemma_fraction_eq_structural;
pub use observation::Observable;
pub use observation::ObservableFeatures;
pub use observation::deref_seq;
pub use observation::present_filter;
pub use observation::excluded_filter;
pub use observation::lemma_presence_exclusion_complementary;
pub use observation::lemma_partition_count;
pub use observation::lemma_partition_multiset;
pub use observation::lemma_filtered_views_restartable;
