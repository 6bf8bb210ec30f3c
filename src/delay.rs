//! A fixed-capacity ring buffer of samples with exact integer-delay reads.
//!
//! The buffer is generic over the sample type: it only stores and hands
//! back samples, so every index computation is checked here whatever the
//! samples are.
use vstd::prelude::*;

verus! {

/// Default capacity: five seconds at eight times 48 kHz.
pub const DEFAULT_DELAY_BUFFER_SAMPLES: usize = 8 * 48000 * 5;

/// The contents of a delay buffer: the stored samples and the slot the
/// next sample is written to.
pub struct DelayState<T> {
    pub samples: Seq<T>,
    pub cursor: int,
}

/// The slot `back` places behind `cursor` in a ring of `len` slots, for
/// `back < len`.
pub open spec fn slot_behind(cursor: int, len: int, back: int) -> int {
    if back <= cursor {
        cursor - back
    } else {
        cursor + len - back
    }
}

impl<T> DelayState<T> {
    pub open spec fn wf(self) -> bool {
        &&& self.samples.len() > 0
        &&& 0 <= self.cursor < self.samples.len()
    }

    pub open spec fn len(self) -> int {
        self.samples.len() as int
    }

    /// The sample `n` writes ago (taken modulo the capacity). `tap(1)` is
    /// the newest sample, `tap(0)` the oldest one, written a full
    /// capacity ago.
    pub open spec fn tap(self, n: int) -> T {
        self.samples[slot_behind(self.cursor, self.len(), n % self.len())]
    }

    /// The contents after `x` is written.
    pub open spec fn fed(self, x: T) -> DelayState<T> {
        DelayState {
            samples: self.samples.update(self.cursor, x),
            cursor: if self.cursor + 1 < self.len() { self.cursor + 1 } else { 0 },
        }
    }

    /// The contents after each of `xs` is written, in order.
    pub open spec fn fed_all(self, xs: Seq<T>) -> DelayState<T>
        decreases xs.len(),
    {
        if xs.len() == 0 {
            self
        } else {
            self.fed(xs[0]).fed_all(xs.drop_first())
        }
    }
}

/// The newest sample is the one just written.
proof fn lemma_feed_writes<T>(s: DelayState<T>, x: T)
    requires
        s.wf(),
    ensures
        s.fed(x).wf(),
        s.fed(x).len() == s.len(),
        s.fed(x).tap(1) == x,
{
    if s.len() == 1 {
        vstd::arithmetic::div_mod::lemma_mod_self_0(1);
    } else {
        vstd::arithmetic::div_mod::lemma_small_mod(1, s.len() as nat);
    }
}

/// Writing a sample moves every older sample one place further back.
proof fn lemma_feed_shifts<T>(s: DelayState<T>, x: T, m: int)
    requires
        s.wf(),
        1 <= m < s.len(),
    ensures
        s.fed(x).wf(),
        s.fed(x).len() == s.len(),
        s.fed(x).tap(m + 1) == s.tap(m),
{
    vstd::arithmetic::div_mod::lemma_small_mod(m as nat, s.len() as nat);
    if m + 1 < s.len() {
        vstd::arithmetic::div_mod::lemma_small_mod((m + 1) as nat, s.len() as nat);
    } else {
        vstd::arithmetic::div_mod::lemma_mod_self_0(s.len());
    }
}

/// One step forward on a ring of `l` slots.
proof fn lemma_mod_succ(n: int, l: int)
    requires
        l > 0,
    ensures
        (n + 1) % l == (if n % l + 1 < l { n % l + 1 } else { 0 }),
{
    vstd::arithmetic::div_mod::lemma_fundamental_div_mod(n, l);
    vstd::arithmetic::div_mod::lemma_mod_bound(n, l);
    let q = n / l;
    assert(l * q == q * l) by (nonlinear_arith);
    if n % l + 1 < l {
        vstd::arithmetic::div_mod::lemma_fundamental_div_mod_converse(n + 1, l, q, n % l + 1);
    } else {
        assert((q + 1) * l == q * l + l) by (nonlinear_arith);
        vstd::arithmetic::div_mod::lemma_fundamental_div_mod_converse(n + 1, l, q + 1, 0);
    }
}

/// One step back on a ring of `l` slots.
proof fn lemma_mod_pred(n: int, l: int)
    requires
        l > 0,
    ensures
        (n - 1) % l == (if n % l >= 1 { n % l - 1 } else { l - 1 }),
{
    vstd::arithmetic::div_mod::lemma_fundamental_div_mod(n, l);
    vstd::arithmetic::div_mod::lemma_mod_bound(n, l);
    let q = n / l;
    assert(l * q == q * l) by (nonlinear_arith);
    if n % l >= 1 {
        vstd::arithmetic::div_mod::lemma_fundamental_div_mod_converse(n - 1, l, q, n % l - 1);
    } else {
        assert((q - 1) * l == q * l - l) by (nonlinear_arith);
        vstd::arithmetic::div_mod::lemma_fundamental_div_mod_converse(n - 1, l, q - 1, l - 1);
    }
}

/// After `xs` is written, the sample that was `m` writes back is
/// `m + xs.len()` writes back, as long as it has not been overwritten.
proof fn lemma_fed_all_shifts<T>(s: DelayState<T>, xs: Seq<T>, m: int)
    requires
        s.wf(),
        1 <= m,
        m + xs.len() <= s.len(),
    ensures
        s.fed_all(xs).tap(m + xs.len() as int) == s.tap(m),
    decreases xs.len(),
{
    if xs.len() > 0 {
        lemma_feed_shifts(s, xs[0], m);
        lemma_fed_all_shifts(s.fed(xs[0]), xs.drop_first(), m + 1);
    }
}

/// An impulse written into the buffer and followed by `k` other samples is
/// read back exactly at delay `k + 1`, for any `k` below the capacity.
pub proof fn lemma_impulse_read_back<T>(s: DelayState<T>, impulse: T, xs: Seq<T>)
    requires
        s.wf(),
        xs.len() < s.len(),
    ensures
        s.fed(impulse).fed_all(xs).tap(xs.len() as int + 1) == impulse,
{
    lemma_feed_writes(s, impulse);
    lemma_fed_all_shifts(s.fed(impulse), xs, 1);
}

/// A circular buffer of samples with a write cursor.
#[derive(Debug, Clone)]
pub struct DelayBuffer<T> {
    data: Vec<T>,
    wr: usize,
    silence: T,
}

impl<T> View for DelayBuffer<T> {
    type V = DelayState<T>;

    closed spec fn view(&self) -> DelayState<T> {
        DelayState { samples: self.data@, cursor: self.wr as int }
    }
}

impl<T: Copy> DelayBuffer<T> {
    /// The sample that `reset` fills the buffer with.
    pub closed spec fn silence(&self) -> T {
        self.silence
    }

    pub open spec fn inv(&self) -> bool {
        self@.wf()
    }

    /// A buffer of `size` samples of `silence`.
    pub fn new_with_size(size: usize, silence: T) -> (b: Self)
        requires
            size > 0,
        ensures
            b.inv(),
            b@.samples == Seq::new(size as nat, |i: int| silence),
            b@.cursor == 0,
            b.silence() == silence,
    {
        let mut data: Vec<T> = Vec::new();
        let mut i: usize = 0;
        while i < size
            invariant
                i <= size,
                data@ == Seq::new(i as nat, |j: int| silence),
            decreases size - i,
        {
            data.push(silence);
            i = i + 1;
            assert(data@ =~= Seq::new(i as nat, |j: int| silence));
        }
        DelayBuffer { data, wr: 0, silence }
    }

    /// A buffer of the default capacity, filled with `silence`.
    pub fn new(silence: T) -> (b: Self)
        ensures
            b.inv(),
            b@.samples == Seq::new(DEFAULT_DELAY_BUFFER_SAMPLES as nat, |i: int| silence),
            b@.cursor == 0,
            b.silence() == silence,
    {
        Self::new_with_size(DEFAULT_DELAY_BUFFER_SAMPLES, silence)
    }

    /// The capacity in samples.
    pub fn len(&self) -> (r: usize)
        requires
            self.inv(),
        ensures
            r == self@.len(),
            r > 0,
    {
        self.data.len()
    }

    /// Fills the buffer with silence and moves the cursor to the start.
    pub fn reset(&mut self)
        requires
            old(self).inv(),
        ensures
            final(self).inv(),
            final(self)@.samples == Seq::new(old(self)@.len() as nat, |i: int| old(self).silence()),
            final(self)@.cursor == 0,
            final(self).silence() == old(self).silence(),
    {
        let len = self.data.len();
        let mut i: usize = 0;
        while i < len
            invariant
                i <= len,
                len == self.data.len(),
                len > 0,
                self.silence == old(self).silence,
                forall|j: int| 0 <= j < i ==> self.data@[j] == self.silence,
            decreases len - i,
        {
            self.data.set(i, self.silence);
            i = i + 1;
        }
        self.wr = 0;
        assert(self.data@ =~= Seq::new(len as nat, |j: int| self.silence));
    }

    /// Writes the newest sample and advances the cursor, wrapping around.
    pub fn feed(&mut self, input: T)
        requires
            old(self).inv(),
        ensures
            final(self).inv(),
            final(self)@ == old(self)@.fed(input),
            final(self).silence() == old(self).silence(),
    {
        let len = self.data.len();
        self.data.set(self.wr, input);
        self.wr = if self.wr + 1 < len { self.wr + 1 } else { 0 };
    }

    /// The slot `back` places behind the cursor.
    fn slot(&self, back: usize) -> (r: usize)
        requires
            self.inv(),
            back < self@.len(),
        ensures
            r == slot_behind(self@.cursor, self@.len(), back as int),
            r < self@.len(),
    {
        if back <= self.wr {
            self.wr - back
        } else {
            self.wr + (self.data.len() - back)
        }
    }

    /// The sample `delay_sample_count` writes ago, modulo the capacity.
    pub fn at(&self, delay_sample_count: usize) -> (r: T)
        requires
            self.inv(),
        ensures
            r == self@.tap(delay_sample_count as int),
    {
        let back = delay_sample_count % self.data.len();
        self.data[self.slot(back)]
    }

    /// The four samples a cubic interpolation at a delay between `offs`
    /// and `offs + 1` reads, from the newest to the oldest: one sample
    /// newer than `offs`, the two samples that bracket the read position,
    /// and one sample older.
    pub fn cubic_taps(&self, offs: usize) -> (r: (T, T, T, T))
        requires
            self.inv(),
        ensures
            r == (
                self@.tap(offs as int - 1),
                self@.tap(offs as int),
                self@.tap(offs as int + 1),
                self@.tap(offs as int + 2),
            ),
    {
        let len = self.data.len();
        let k = offs % len;
        let newer = if k >= 1 { k - 1 } else { len - 1 };
        let older1 = if k + 1 < len { k + 1 } else { 0 };
        let older2 = if older1 + 1 < len { older1 + 1 } else { 0 };
        proof {
            lemma_mod_pred(offs as int, len as int);
            lemma_mod_succ(offs as int, len as int);
            lemma_mod_succ(offs as int + 1, len as int);
        }
        (self.data[self.slot(newer)], self.data[self.slot(k)], self.data[self.slot(older1)],
            self.data[self.slot(older2)])
    }
}

} // verus!
