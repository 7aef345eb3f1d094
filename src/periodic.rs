use vstd::prelude::*;

verus! {

/// The element that periodic index `i` reaches in `s`: slot `i mod |s|`.
pub open spec fn periodic_at<T>(s: Seq<T>, i: int) -> T
    recommends
        s.len() > 0,
        i >= 0,
{
    s[i % (s.len() as int)]
}

/// `s` with the slot that periodic index `i` reaches replaced by `v`.
pub open spec fn periodic_update<T>(s: Seq<T>, i: int, v: T) -> Seq<T>
    recommends
        s.len() > 0,
        i >= 0,
{
    s.update(i % (s.len() as int), v)
}

/// A fixed-size array that is read and written periodically: indexing past
/// the end wraps around to the beginning.
///
/// The length `N` is part of the type and never changes. Periodic access
/// (`get`, `set`, `[]`) needs `N > 0`; construction does not. Indices are
/// `usize`, so they are never negative.
#[derive(Debug, Clone, PartialEq, Eq, PartialOrd, Ord)]
pub struct PeriodicArray<T: Copy, const N: usize> {
    /// The underlying storage, in order.
    pub inner: [T; N],
}

/// `r` is `s` with `f` applied to each element: same length, and each
/// `r[k]` is an outcome of `f(s[k])`.
pub open spec fn is_mapped<T, F: Fn(T) -> T>(s: Seq<T>, f: F, r: Seq<T>) -> bool {
    &&& r.len() == s.len()
    &&& forall|k: int| 0 <= k < s.len() ==> f.ensures((s[k],), #[trigger] r[k])
}

impl<T: Copy, const N: usize> View for PeriodicArray<T, N> {
    type V = Seq<T>;

    open spec fn view(&self) -> Seq<T> {
        self.inner@
    }
}

impl<T: Copy, const N: usize> PeriodicArray<T, N> {
    /// Wraps `inner` as it is.
    pub fn new(inner: [T; N]) -> (r: Self)
        ensures
            r.inner == inner,
            r@ == inner@,
    {
        PeriodicArray { inner }
    }

    /// The element at slot `index % N`.
    pub fn get(&self, index: usize) -> (r: T)
        requires
            N > 0,
        ensures
            r == periodic_at(self@, index as int),
    {
        self.inner[index % N]
    }

    /// Overwrites the element at slot `index % N` with `value`.
    pub fn set(&mut self, index: usize, value: T)
        requires
            N > 0,
        ensures
            final(self)@ == periodic_update(old(self)@, index as int, value),
    {
        self.inner[index % N] = value;
    }

    /// A new array holding `f` of each element, in storage order.
    pub fn map<F: Fn(T) -> T>(&self, f: F) -> (r: Self)
        requires
            forall|k: int| 0 <= k < N ==> f.requires((self@[k],)),
        ensures
            is_mapped(self@, f, r@),
    {
        let mut r = PeriodicArray { inner: self.inner };
        r.map_in_place(f);
        r
    }

    /// Replaces each element by `f` of it, in storage order.
    pub fn map_in_place<F: Fn(T) -> T>(&mut self, f: F)
        requires
            forall|k: int| 0 <= k < N ==> f.requires((old(self)@[k],)),
        ensures
            is_mapped(old(self)@, f, final(self)@),
    {
        let ghost before = self@;
        let mut i: usize = 0;
        while i < N
            invariant
                i <= N,
                self@.len() == N,
                before.len() == N,
                forall|k: int| 0 <= k < N ==> f.requires((before[k],)),
                forall|k: int| 0 <= k < i ==> f.ensures((before[k],), #[trigger] self@[k]),
                forall|k: int| i <= k < N ==> #[trigger] self@[k] == before[k],
            decreases N - i,
        {
            let x = self.inner[i];
            self.inner[i] = f(x);
            i += 1;
        }
    }
}

impl<T: Copy, const N: usize> vstd::std_specs::core::IndexSpecImpl<usize> for PeriodicArray<T, N> {
    open spec fn index_req(&self, index: &usize) -> bool {
        N > 0
    }
}

impl<T: Copy, const N: usize> core::ops::Index<usize> for PeriodicArray<T, N> {
    type Output = T;

    /// `a[i]` reads slot `i % N`.
    fn index(&self, index: usize) -> (r: &T)
        ensures
            *r == periodic_at(self@, index as int),
    {
        &self.inner[index % N]
    }
}

impl<T: Copy, const N: usize> core::ops::IndexMut<usize> for PeriodicArray<T, N> {
    /// `a[i] = v` writes slot `i % N`.
    fn index_mut(&mut self, index: usize) -> (r: &mut T)
        requires
            N > 0,
        ensures
            *r == periodic_at(old(self)@, index as int),
            final(self)@ == periodic_update(old(self)@, index as int, *final(r)),
    {
        &mut self.inner[index % N]
    }
}

impl<T: Copy, const N: usize> core::ops::Deref for PeriodicArray<T, N> {
    type Target = [T; N];

    /// The underlying array, for the operations of `[T; N]` (iteration in
    /// storage order, comparison, and the like).
    fn deref(&self) -> (r: &[T; N])
        ensures
            *r == self.inner,
    {
        &self.inner
    }
}

impl<T: Copy, const N: usize> core::ops::DerefMut for PeriodicArray<T, N> {
    /// The underlying array, mutably; what is written through it is the new
    /// content.
    fn deref_mut(&mut self) -> (r: &mut [T; N])
        ensures
            *r == old(self).inner,
            final(self).inner == *final(r),
    {
        &mut self.inner
    }
}

impl<T: Copy, const N: usize> From<[T; N]> for PeriodicArray<T, N> {
    /// Same as `PeriodicArray::new`.
    fn from(inner: [T; N]) -> (r: Self) {
        PeriodicArray { inner }
    }
}

impl<T: Copy, const N: usize> vstd::std_specs::convert::FromSpecImpl<[T; N]> for PeriodicArray<T, N> {
    open spec fn obeys_from_spec() -> bool {
        true
    }

    open spec fn from_spec(inner: [T; N]) -> Self {
        PeriodicArray { inner }
    }
}

} // verus!
