//! Fixed-capacity sample storage.
use vstd::prelude::*;

verus! {

/// A fixed number `N` of samples, held in an array: no allocation, and no
/// operation changes the capacity.
#[derive(Clone, Debug)]
pub struct SampleStore<T, const N: usize> {
    data: [T; N],
}

impl<T: Copy, const N: usize> View for SampleStore<T, N> {
    type V = Seq<T>;

    closed spec fn view(&self) -> Seq<T> {
        self.data@
    }
}

impl<T: Copy, const N: usize> SampleStore<T, N> {
    /// The store always holds exactly `N` samples.
    pub proof fn lemma_capacity(&self)
        ensures
            self@.len() == N,
    {
    }

    /// A store whose every slot holds `silence`.
    pub fn filled(silence: T) -> (r: Self)
        ensures
            r@ == Seq::new(N as nat, |_i: int| silence),
    {
        let r = SampleStore { data: [silence; N] };
        assert(r@ =~= Seq::new(N as nat, |_i: int| silence));
        r
    }

    /// The fixed capacity.
    pub fn length(&self) -> (r: usize)
        ensures
            r == N,
            r == self@.len(),
    {
        N
    }

    /// The sample at `index`.
    pub fn get(&self, index: usize) -> (r: T)
        requires
            index < N,
        ensures
            r == self@[index as int],
    {
        self.data[index]
    }

    /// Replaces the sample at `index` by `value`.
    pub fn set(&mut self, index: usize, value: T)
        requires
            index < N,
        ensures
            final(self)@ == old(self)@.update(index as int, value),
    {
        self.data[index] = value;
    }
}

} // verus!
