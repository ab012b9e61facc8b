//! A delay line over a fixed-capacity circular store.
use crate::store::SampleStore;
use vstd::arithmetic::div_mod::lemma_small_mod;
use vstd::prelude::*;

verus! {

/// The history after one more sample `x` has entered a delay line whose
/// history, oldest first, is `h`: the oldest sample leaves.
pub open spec fn shifted<T>(h: Seq<T>, x: T) -> Seq<T> {
    h.drop_first().push(x)
}

/// The position in a history of length `n` of the sample that is `offset`
/// samples old: offset 1 is the most recent sample, and offset 0 stands for
/// the oldest one, `n` samples old.
pub open spec fn tap_index(n: nat, offset: nat) -> int {
    if offset == 0 {
        0
    } else {
        n - offset
    }
}

/// A delay of exactly `N` samples.
///
/// The cursor always marks the slot that receives the next write, which holds
/// the oldest sample.
#[derive(Clone, Debug)]
pub struct DelayLine<T, const N: usize> {
    store: SampleStore<T, N>,
    cursor: usize,
}

impl<T: Copy, const N: usize> View for DelayLine<T, N> {
    type V = Seq<T>;

    /// The last `N` samples written, oldest first.
    closed spec fn view(&self) -> Seq<T> {
        Seq::new(N as nat, |i: int| self.store@[(self.cursor + i) % (N as int)])
    }
}

impl<T: Copy, const N: usize> DelayLine<T, N> {
    /// The cursor lies inside the store.
    pub closed spec fn wf(&self) -> bool {
        0 < N && self.cursor < N
    }

    /// The history always holds exactly `N` samples.
    pub proof fn lemma_len(&self)
        ensures
            self@.len() == N,
    {
    }

    /// A delay line whose history is `N` copies of `silence`.
    pub fn new(silence: T) -> (r: Self)
        requires
            0 < N,
        ensures
            r.wf(),
            r@ == Seq::new(N as nat, |_i: int| silence),
    {
        let r = DelayLine { store: SampleStore::filled(silence), cursor: 0 };
        proof {
            r.store.lemma_capacity();
            assert(r@ =~= Seq::new(N as nat, |_i: int| silence));
        }
        r
    }

    /// The fixed delay, in samples.
    pub fn length(&self) -> (r: usize)
        ensures
            r == N,
    {
        self.store.length()
    }

    /// The oldest sample, `N` samples old: the one the next write replaces.
    pub fn back(&self) -> (r: T)
        requires
            self.wf(),
        ensures
            r == self@[0],
    {
        proof {
            self.store.lemma_capacity();
            lemma_small_mod(self.cursor as nat, N as nat);
        }
        self.store.get(self.cursor)
    }

    /// Stores `x` as the newest sample; the oldest one leaves.
    pub fn write(&mut self, x: T)
        requires
            old(self).wf(),
        ensures
            final(self).wf(),
            final(self)@ == shifted(old(self)@, x),
    {
        let ghost h0 = self@;
        proof {
            self.store.lemma_capacity();
        }
        let c = self.cursor;
        self.store.set(c, x);
        self.cursor = if c + 1 == N {
            0
        } else {
            c + 1
        };
        proof {
            self.store.lemma_capacity();
            let n = N as int;
            assert forall|i: int| 0 <= i < n implies #[trigger] self@[i] == shifted(h0, x)[i] by {
                if i == n - 1 {
                    assert((self.cursor + i) % n == c) by {
                        if c + 1 == n {
                            assert((n - 1) % n == n - 1) by (nonlinear_arith)
                                requires
                                    0 < n,
                            ;
                        } else {
                            assert((c + 1 + n - 1) % n == c) by (nonlinear_arith)
                                requires
                                    0 <= c < n,
                            ;
                        }
                    }
                } else {
                    let j = (self.cursor + i) % n;
                    assert(j == (c + i + 1) % n) by {
                        if c + 1 == n {
                            assert(i % n == (c + i + 1) % n) by (nonlinear_arith)
                                requires
                                    c + 1 == n,
                                    0 <= i < n,
                            ;
                        }
                    }
                    assert(j != c) by (nonlinear_arith)
                        requires
                            j == (c + i + 1) % n,
                            0 <= i < n - 1,
                            0 <= c < n,
                    ;
                }
            }
            assert(self@ =~= shifted(h0, x));
        }
    }

    /// Returns the oldest sample, then stores `x` as in `write`: a pure delay
    /// of `N` samples applied to the stream of `x`.
    pub fn get_write_and_step(&mut self, x: T) -> (r: T)
        requires
            old(self).wf(),
        ensures
            final(self).wf(),
            r == old(self)@[0],
            final(self)@ == shifted(old(self)@, x),
    {
        let r = self.back();
        self.write(x);
        r
    }

    /// The sample that is `offset` samples old, without changing the line:
    /// offset 1 is the most recent sample, and offset 0 is the oldest one, as
    /// `back` gives it.
    pub fn read(&self, offset: usize) -> (r: T)
        requires
            self.wf(),
            offset < N,
        ensures
            r == self@[tap_index(N as nat, offset as nat)],
    {
        proof {
            self.store.lemma_capacity();
        }
        let c = self.cursor;
        let i = if offset <= c {
            c - offset
        } else {
            c + (N - offset)
        };
        proof {
            let n = N as int;
            let t = tap_index(N as nat, offset as nat);
            assert((c + t) % n == i) by (nonlinear_arith)
                requires
                    0 <= c < n,
                    0 <= offset < n,
                    t == (if offset == 0 { 0 } else { n - offset }),
                    i == (if offset <= c { c - offset } else { c + (n - offset) }),
            ;
        }
        self.store.get(i)
    }
}

} // verus!
