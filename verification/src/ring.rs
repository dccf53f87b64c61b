//! A fixed-capacity ring buffer of samples.
//!
//! Delay lines and reverb filters keep a window of recent samples: index 0
//! is the newest, higher indices are older. The backing storage is allocated
//! once at construction and never grows, so pushing in the hot path
//! allocates nothing. `truncate` drops the oldest samples, which is how a
//! tap-length change shrinks the window.

use vstd::prelude::*;

use crate::fixed::fp_ok;

verus! {

/// A circular window over a fixed backing store, newest sample first.
pub struct RingBuf {
    data: Vec<i64>,
    start: usize,
    len: usize,
}

impl View for RingBuf {
    type V = Seq<i64>;

    closed spec fn view(&self) -> Seq<i64> {
        Seq::new(
            self.len as nat,
            |i: int| self.data@[(self.start + i) % (self.data@.len() as int)],
        )
    }
}

impl RingBuf {
    /// The window fits its storage and holds representable samples.
    pub closed spec fn wf(&self) -> bool {
        &&& 1 <= self.data@.len() <= 0x10000000
        &&& self.start < self.data@.len()
        &&& self.len <= self.data@.len()
        &&& forall|i: int| 0 <= i < self.data@.len() ==> fp_ok(#[trigger] self.data@[i] as int)
    }

    /// How many samples the buffer can hold.
    pub closed spec fn capacity(&self) -> int {
        self.data@.len() as int
    }

    /// An empty buffer able to hold `cap` samples.
    pub fn new(cap: usize) -> (r: RingBuf)
        requires
            1 <= cap <= 0x10000000,
        ensures
            r.wf(),
            r.capacity() == cap,
            r@ == Seq::<i64>::empty(),
    {
        let mut data: Vec<i64> = Vec::new();
        for i in 0..cap
            invariant
                data@.len() == i,
                forall|j: int| 0 <= j < i ==> #[trigger] data@[j] == 0i64,
        {
            data.push(0);
        }
        let r = RingBuf { data, start: 0, len: 0 };
        proof {
            assert(r@ =~= Seq::<i64>::empty());
        }
        r
    }

    /// The capacity always fits comfortably in machine arithmetic.
    pub proof fn lemma_capacity_bound(&self)
        requires
            self.wf(),
        ensures
            1 <= self.capacity() <= 0x10000000,
    {
    }

    /// Number of samples currently held.
    pub fn len(&self) -> (r: usize)
        ensures
            r == self@.len(),
    {
        self.len
    }

    /// Read the sample `i` steps into the past; zero while the window has
    /// not yet grown that far.
    pub fn read(&self, i: usize) -> (r: i64)
        requires
            self.wf(),
        ensures
            r as int == (if i < self@.len() {
                self@[i as int] as int
            } else {
                0
            }),
            fp_ok(r as int),
    {
        if i < self.len {
            proof {
                vstd::arithmetic::div_mod::lemma_mod_division_less_than_divisor(
                    (self.start + i) as int,
                    self.data@.len() as int,
                );
                vstd::arithmetic::div_mod::lemma_mod_bound(
                    (self.start + i) as int,
                    self.data@.len() as int,
                );
            }
            let idx = (self.start + i) % self.data.len();
            self.data[idx]
        } else {
            0
        }
    }

    /// Drop every sample older than the `k` newest.
    pub fn truncate(&mut self, k: usize)
        requires
            old(self).wf(),
        ensures
            final(self).wf(),
            final(self).capacity() == old(self).capacity(),
            final(self)@ == old(self)@.take(
                if k < old(self)@.len() {
                    k as int
                } else {
                    old(self)@.len() as int
                },
            ),
    {
        if k < self.len {
            self.len = k;
        }
        proof {
            assert(self@ =~= old(self)@.take(
                if k < old(self)@.len() {
                    k as int
                } else {
                    old(self)@.len() as int
                },
            ));
        }
    }

    /// Prepend the newest sample; the window must not be full.
    pub fn push_front(&mut self, x: i64)
        requires
            old(self).wf(),
            old(self)@.len() < old(self).capacity(),
            fp_ok(x as int),
        ensures
            final(self).wf(),
            final(self).capacity() == old(self).capacity(),
            final(self)@ == seq![x] + old(self)@,
    {
        let cap = self.data.len();
        let new_start = (self.start + cap - 1) % cap;
        proof {
            vstd::arithmetic::div_mod::lemma_mod_bound((self.start + cap - 1) as int, cap as int);
        }
        self.data[new_start] = x;
        self.start = new_start;
        self.len = self.len + 1;
        proof {
            let c = cap as int;
            let s0 = old(self).start as int;
            let ns = new_start as int;
            assert forall|i: int| 1 <= i < self@.len() implies self@[i] == old(self)@[i - 1] by {
                vstd::arithmetic::div_mod::lemma_small_mod(i as nat, c as nat);
                vstd::arithmetic::div_mod::lemma_add_mod_noop(s0 + c - 1, i, c);
                vstd::arithmetic::div_mod::lemma_mod_add_multiples_vanish(s0 + i - 1, c);
                assert((ns + i) % c == (s0 + i - 1) % c);
                // The slot just written is not the slot any surviving
                // sample reads.
                vstd::arithmetic::div_mod::lemma_small_mod(ns as nat, c as nat);
                if ns + i < c {
                    vstd::arithmetic::div_mod::lemma_small_mod((ns + i) as nat, c as nat);
                } else {
                    vstd::arithmetic::div_mod::lemma_mod_add_multiples_vanish(ns + i - c, c);
                    vstd::arithmetic::div_mod::lemma_small_mod((ns + i - c) as nat, c as nat);
                }
                assert((ns + i) % c != ns);
                vstd::arithmetic::div_mod::lemma_mod_bound(s0 + i - 1, c);
            }
            assert(self@[0] == x) by {
                vstd::arithmetic::div_mod::lemma_small_mod(ns as nat, c as nat);
            }
            assert(self@ =~= seq![x] + old(self)@);
        }
    }
}

} // verus!
