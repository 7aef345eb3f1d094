//! Laws that relate the operations of `PeriodicArray`, stated over the
//! spec functions that the operations' contracts use.
use vstd::arithmetic::div_mod::{lemma_mod_multiples_vanish, lemma_mod_twice, lemma_small_mod};
use vstd::prelude::*;
use vstd::std_specs::convert::FromSpec;

use crate::periodic::{is_mapped, periodic_at, periodic_update, PeriodicArray};

verus! {

/// Building with `From` and building with `new` give the same array: both
/// hold exactly the elements supplied.
pub proof fn lemma_construction_equivalence<T: Copy, const N: usize>(inner: [T; N])
    ensures
        <PeriodicArray<T, N> as FromSpec<[T; N]>>::from_spec(inner) == (PeriodicArray::<T, N> {
            inner,
        }),
        <PeriodicArray<T, N> as FromSpec<[T; N]>>::from_spec(inner)@ == inner@,
{
}

/// Reading is periodic: index `i` reads what `i mod N` reads, and what
/// `i + k * N` reads, for every `k >= 0`.
pub proof fn lemma_periodicity<T: Copy, const N: usize>(p: PeriodicArray<T, N>, i: int, k: int)
    requires
        N > 0,
        i >= 0,
        k >= 0,
    ensures
        periodic_at(p@, i) == periodic_at(p@, i % (N as int)),
        periodic_at(p@, i) == periodic_at(p@, i + k * N),
{
    let n = N as int;
    lemma_mod_twice(i, n);
    lemma_mod_multiples_vanish(k, i, n);
    assert(n * k + i == i + k * n) by (nonlinear_arith);
}

/// Inside the domain no wrapping happens: index `i < N` reads the `i`-th
/// element that was supplied.
pub proof fn lemma_in_domain<T: Copy, const N: usize>(inner: [T; N], i: int)
    requires
        0 <= i < N,
    ensures
        periodic_at(inner@, i) == inner@[i],
{
    lemma_small_mod(i as nat, N as nat);
}

/// After writing `v` at index `i`, index `j` reads `v` when `i` and `j` wrap
/// to the same slot, and what it read before otherwise.
pub proof fn lemma_write_then_read<T: Copy, const N: usize>(
    p: PeriodicArray<T, N>,
    i: int,
    j: int,
    v: T,
)
    requires
        N > 0,
        i >= 0,
        j >= 0,
    ensures
        i % (N as int) == j % (N as int) ==> periodic_at(periodic_update(p@, i, v), j) == v,
        i % (N as int) != j % (N as int) ==> periodic_at(periodic_update(p@, i, v), j)
            == periodic_at(p@, j),
{
}

/// Mapping `f` over the array and then reading any index gives an outcome
/// of `f` on what that index read before.
pub proof fn lemma_map_then_read<T: Copy, const N: usize, F: Fn(T) -> T>(
    p: PeriodicArray<T, N>,
    f: F,
    q: PeriodicArray<T, N>,
    i: int,
)
    requires
        N > 0,
        i >= 0,
        is_mapped(p@, f, q@),
    ensures
        f.ensures((periodic_at(p@, i),), periodic_at(q@, i)),
{
}

/// A full traversal visits exactly `N` elements, and a periodic write
/// leaves that number as it was.
pub proof fn lemma_length_invariant<T: Copy, const N: usize>(p: PeriodicArray<T, N>, i: int, v: T)
    requires
        N > 0,
        i >= 0,
    ensures
        p@.len() == N,
        periodic_update(p@, i, v).len() == N,
{
}

} // verus!
