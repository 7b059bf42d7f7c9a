use vstd::arithmetic::div_mod::{lemma_add_mod_noop, lemma_mod_self_0, lemma_small_mod};
use vstd::prelude::*;

verus! {

/// Number of failures (`true` outcomes) in `s`.
pub open spec fn failures(s: Seq<bool>) -> nat
    decreases s.len(),
{
    if s.len() == 0 {
        0
    } else {
        failures(s.drop_last()) + if s.last() {
            1nat
        } else {
            0nat
        }
    }
}

/// The last `n` outcomes of `s`, or all of them when `s` holds fewer.
pub open spec fn last_n(s: Seq<bool>, n: nat) -> Seq<bool> {
    if s.len() <= n {
        s
    } else {
        s.subrange(s.len() - n, s.len() as int)
    }
}

/// Counting the failures of two joined sequences adds the two counts.
pub proof fn lemma_failures_concat(a: Seq<bool>, b: Seq<bool>)
    ensures
        failures(a + b) == failures(a) + failures(b),
    decreases b.len(),
{
    if b.len() == 0 {
        assert(a + b =~= a);
    } else {
        lemma_failures_concat(a, b.drop_last());
        assert((a + b).drop_last() =~= a + b.drop_last());
    }
}

/// A sequence holds no more failures than outcomes.
pub proof fn lemma_failures_bound(s: Seq<bool>)
    ensures
        failures(s) <= s.len(),
    decreases s.len(),
{
    if s.len() > 0 {
        lemma_failures_bound(s.drop_last());
    }
}

/// Overwriting one outcome changes the count by what was removed and what was put.
pub proof fn lemma_failures_update(s: Seq<bool>, i: int, v: bool)
    requires
        0 <= i < s.len(),
    ensures
        failures(s.update(i, v)) + (if s[i] {
            1int
        } else {
            0int
        }) == failures(s) + (if v {
            1int
        } else {
            0int
        }),
    decreases s.len(),
{
    if i < s.len() - 1 {
        lemma_failures_update(s.drop_last(), i, v);
        assert(s.update(i, v).drop_last() =~= s.drop_last().update(i, v));
    } else {
        assert(s.update(i, v).drop_last() =~= s.drop_last());
    }
}

/// The cells of a ring read from `start` on, wrapping round to the beginning.
pub open spec fn rotated(cells: Seq<bool>, start: int) -> Seq<bool> {
    cells.subrange(start, cells.len() as int) + cells.subrange(0, start)
}

/// A rotation holds as many failures as the cells themselves.
pub proof fn lemma_failures_rotated(cells: Seq<bool>, start: int)
    requires
        0 <= start <= cells.len(),
    ensures
        failures(rotated(cells, start)) == failures(cells),
{
    let a = cells.subrange(0, start);
    let b = cells.subrange(start, cells.len() as int);
    lemma_failures_concat(b, a);
    lemma_failures_concat(a, b);
    assert(a + b =~= cells);
}

/// `1` for a failure, `0` for a success.
pub fn to_int(b: bool) -> (r: usize)
    ensures
        r == (if b {
            1usize
        } else {
            0usize
        }),
{
    if b {
        1
    } else {
        0
    }
}

/// A fixed-size window over the most recent outcomes of calls.
///
/// A `true` outcome is a failure. The ring keeps the number of failures among
/// its cells, so that the failure rate of the window is that number over the
/// length of the ring.
pub struct RingBuffer {
    len: usize,
    card: usize,
    filling: usize,
    ring: Vec<bool>,
    index: usize,
    /// Every outcome recorded so far, oldest first.
    history: Ghost<Seq<bool>>,
}

impl View for RingBuffer {
    type V = Seq<bool>;

    /// The outcomes recorded so far, oldest first.
    closed spec fn view(&self) -> Seq<bool> {
        self.history@
    }
}

impl RingBuffer {
    /// Number of cells of the ring.
    pub closed spec fn len(&self) -> nat {
        self.len as nat
    }

    /// The cells, in storage order.
    pub closed spec fn cells(&self) -> Seq<bool> {
        self.ring@
    }

    /// The stored number of failures.
    pub closed spec fn cardinality(&self) -> nat {
        self.card as nat
    }

    /// Index of the next cell to overwrite.
    pub closed spec fn cursor(&self) -> nat {
        self.index as nat
    }

    /// Number of outcomes recorded, counted up to the length of the ring.
    pub closed spec fn filling(&self) -> nat {
        self.filling as nat
    }

    pub closed spec fn wf(&self) -> bool {
        let n = self.history@.len();
        &&& self.len > 0
        &&& self.ring@.len() == self.len
        &&& self.index < self.len
        &&& self.index == n % (self.len as nat)
        &&& self.filling == if n < self.len {
            n
        } else {
            self.len as nat
        }
        &&& self.card == failures(self.ring@)
        &&& if n < self.len {
            &&& self.ring@.subrange(0, n as int) == self.history@
            &&& forall|i: int| n <= i < self.len ==> !#[trigger] self.ring@[i]
        } else {
            rotated(self.ring@, self.index as int) == last_n(self.history@, self.len as nat)
        }
    }

    /// The stored counters agree with the cells and with the number of records:
    /// the cardinality is the number of failures in the cells, and the cursor has
    /// moved once per record, round the ring.
    pub proof fn lemma_counters(&self)
        requires
            self.wf(),
        ensures
            self.cardinality() == failures(self.cells()),
            self.cursor() == self@.len() % self.len(),
            self.cursor() < self.len(),
            self.filling() <= self.len(),
            self.filling() == if self@.len() < self.len() {
                self@.len()
            } else {
                self.len()
            },
    {
    }

    /// An empty ring of `len` cells.
    pub fn new(len: usize) -> (r: RingBuffer)
        requires
            len > 0,
        ensures
            r.wf(),
            r.len() == len,
            r@ == Seq::<bool>::empty(),
    {
        let mut buf: Vec<bool> = Vec::with_capacity(len);
        let mut k: usize = 0;
        while k < len
            invariant
                k <= len,
                buf@.len() == k,
                forall|i: int| 0 <= i < k ==> !#[trigger] buf@[i],
            decreases len - k,
        {
            buf.push(false);
            k += 1;
        }
        proof {
            lemma_failures_zero(buf@);
            assert(buf@.subrange(0, 0) =~= Seq::<bool>::empty());
            lemma_small_mod(0, len as nat);
        }
        RingBuffer { len, card: 0, filling: 0, ring: buf, index: 0, history: Ghost(Seq::empty()) }
    }

    /// Records one outcome (`true` for a failure) in place of the oldest.
    ///
    /// Returns `None` while the ring is still filling, that is while fewer
    /// outcomes than its length were recorded before this one. After that it
    /// returns the number of failures among the last `len` outcomes, this one
    /// included: the failure rate is that number over `len`.
    pub fn set_current(&mut self, val_new: bool) -> (r: Option<usize>)
        requires
            old(self).wf(),
        ensures
            final(self).wf(),
            final(self).len() == old(self).len(),
            final(self)@ == old(self)@.push(val_new),
            r.is_some() == (old(self)@.len() >= old(self).len()),
            r.is_some() ==> r.unwrap() == failures(last_n(final(self)@, final(self).len())),
    {
        let ghost h = self.history@;
        let ghost n = h.len();
        let ghost cells = self.ring@;
        let i = self.index;
        let j = if i == self.len - 1 {
            0
        } else {
            i + 1
        };
        let val_old = self.ring[i];
        proof {
            lemma_failures_update(cells, i as int, val_new);
            lemma_failures_update(cells, i as int, false);
            lemma_failures_bound(cells.update(i as int, val_new));
            assert(self.card == failures(cells));
        }
        let out = to_int(val_old);
        let put = to_int(val_new);
        assert(failures(cells.update(i as int, val_new)) + out == self.card + put);
        let card_new = self.card - out + put;
        let full = self.filling == self.len;
        if !full {
            self.filling = self.filling + 1;
        }
        self.ring.set(i, val_new);
        self.index = j;
        self.card = card_new;
        self.history = Ghost(h.push(val_new));
        proof {
            let len = self.len as nat;
            let h2 = h.push(val_new);
            let c2 = self.ring@;
            // the cursor moves on by one, round the ring
            lemma_add_mod_noop(n as int, 1, len as int);
            if len > 1 {
                lemma_small_mod(1, len);
            }
            if i + 1 < len {
                lemma_small_mod((i + 1) as nat, len);
            } else {
                lemma_mod_self_0(len as int);
                lemma_small_mod(0, len);
            }
            if n < len {
                lemma_small_mod(n, len);
                if n + 1 < len {
                    assert(c2.subrange(0, (n + 1) as int) =~= h2);
                } else {
                    assert(c2 =~= h2);
                    assert(rotated(c2, 0) =~= c2);
                }
            } else {
                let w = last_n(h, len);
                assert(rotated(cells, i as int) == w);
                assert(last_n(h2, len) =~= w.drop_first().push(val_new));
                assert(rotated(c2, j as int) =~= rotated(cells, i as int).drop_first().push(
                    val_new,
                )) by {
                    let r1 = rotated(cells, i as int);
                    let r2 = rotated(c2, j as int);
                    assert(r2.len() == len);
                    assert forall|q: int| 0 <= q < len implies r2[q] == r1.drop_first().push(
                        val_new,
                    )[q] by {
                        if q < len - 1 - i {
                            assert(r2[q] == c2[j + q]);
                            assert(r1[q + 1] == cells[i + 1 + q]);
                        } else if q < len - 1 {
                            assert(r1[q + 1] == cells[q + 1 - (len - i)]);
                        }
                    }
                }
                lemma_failures_rotated(c2, j as int);
            }
        }
        if full {
            Some(card_new)
        } else {
            None
        }
    }
}

proof fn lemma_failures_zero(s: Seq<bool>)
    requires
        forall|i: int| 0 <= i < s.len() ==> !#[trigger] s[i],
    ensures
        failures(s) == 0,
    decreases s.len(),
{
    if s.len() > 0 {
        lemma_failures_zero(s.drop_last());
    }
}

} // verus!
