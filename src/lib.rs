//! A fixed-size array whose indices wrap around: position `i` of a
//! `PeriodicArray<T, N>` is slot `i % N` of the underlying `[T; N]`.
mod laws;
mod periodic;

pub use periodic::PeriodicArray;
pub use periodic::{is_mapped, periodic_at, periodic_update};
pub use laws::{
    lemma_construction_equivalence, lemma_in_domain, lemma_length_invariant,
    lemma_map_then_read, lemma_periodicity, lemma_write_then_read,
};
