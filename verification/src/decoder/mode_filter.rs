use vstd::prelude::*;
use vstd::std_specs::cmp::PartialEqSpec;

verus! {

/// ModeFilter Error
#[derive(Debug, PartialEq, Eq)]
pub enum Error {
    /// ModeFilter `min_count` exceeds `size`.
    MinCountExceedsSize { min_count: usize, size: usize },
}

/// Number of samples in `samples` that compare equal to `v`.
pub open spec fn occurrences<T: PartialEq>(samples: Seq<T>, v: T) -> nat
    decreases samples.len(),
{
    if samples.len() == 0 {
        0
    } else {
        occurrences(samples.drop_last(), v) + if samples.last().eq_spec(&v) {
            1nat
        } else {
            0nat
        }
    }
}

/// Whether the sample at `i` is the statistical mode of `samples`: no sample occurs more
/// often, and every sample before it occurs less often, so that of several samples that
/// occur equally often the first one wins.
pub open spec fn is_mode_at<T: PartialEq>(samples: Seq<T>, i: int) -> bool {
    &&& 0 <= i < samples.len()
    &&& forall|j: int|
        0 <= j < samples.len() ==> occurrences(samples, #[trigger] samples[j]) <= occurrences(
            samples,
            samples[i],
        )
    &&& forall|j: int|
        0 <= j < i ==> occurrences(samples, #[trigger] samples[j]) < occurrences(
            samples,
            samples[i],
        )
}

/// At most one sample is the mode.
pub proof fn lemma_mode_unique<T: PartialEq>(samples: Seq<T>, i: int, j: int)
    requires
        is_mode_at(samples, i),
        is_mode_at(samples, j),
    ensures
        i == j,
{
    if i < j {
        assert(occurrences(samples, samples[i]) < occurrences(samples, samples[j]));
    } else if j < i {
        assert(occurrences(samples, samples[j]) < occurrences(samples, samples[i]));
    }
}

/// The state of a mode filter: a ring of `window.len()` slots, the slot that the next
/// sample goes to, and the number of occurrences that a mode needs to be reported.
pub ghost struct ModeFilterView<T> {
    pub window: Seq<Option<T>>,
    pub cursor: nat,
    pub min_count: nat,
}

impl<T: PartialEq> ModeFilterView<T> {
    /// The filter of `size` slots that has seen no sample.
    pub open spec fn blank(size: nat, min_count: nat) -> Self {
        ModeFilterView { window: Seq::new(size, |i: int| None::<T>), cursor: 0, min_count }
    }

    /// The cursor points at a slot, and the threshold does not exceed the window.
    pub open spec fn wf(self) -> bool {
        &&& self.cursor < self.window.len()
        &&& self.min_count <= self.window.len()
    }

    /// The filter after `v` went into the slot at the cursor and the cursor moved on,
    /// back to the first slot after the last.
    pub open spec fn push(self, v: T) -> Self {
        ModeFilterView {
            window: self.window.update(self.cursor as int, Some(v)),
            cursor: ((self.cursor as int + 1) % (self.window.len() as int)) as nat,
            min_count: self.min_count,
        }
    }

    /// Whether every slot holds a sample.
    pub open spec fn is_full(self) -> bool {
        forall|i: int| 0 <= i < self.window.len() ==> (#[trigger] self.window[i]) is Some
    }

    /// The samples in the slots, in slot order. Meant for a full window.
    pub open spec fn samples(self) -> Seq<T> {
        Seq::new(self.window.len(), |i: int| self.window[i].unwrap())
    }

    /// What the filter reports: the mode of a full window, if it occurs at least
    /// `min_count` times.
    pub open spec fn mode(self) -> Option<T> {
        let samples = self.samples();
        if self.is_full() && exists|i: int| is_mode_at(samples, i) {
            let i = choose|i: int| is_mode_at(samples, i);
            if occurrences(samples, samples[i]) >= self.min_count {
                Some(samples[i])
            } else {
                None
            }
        } else {
            None
        }
    }
}

/// Whether `==` on `T` is the equality of specifications: two samples compare equal exactly
/// if they are the same value.
pub open spec fn eq_is_identity<T: PartialEq>() -> bool {
    forall|a: T, b: T| #[trigger] a.eq_spec(&b) <==> a == b
}

/// The slot `offset` places after `cursor` in a ring of `size` slots.
pub open spec fn ring_slot(cursor: int, offset: int, size: int) -> int {
    if cursor + offset < size {
        cursor + offset
    } else {
        cursor + offset - size
    }
}

impl<T: PartialEq> ModeFilterView<T> {
    /// The filter after the samples `vs` went in, one after the other.
    pub open spec fn push_all(self, vs: Seq<T>) -> Self
        decreases vs.len(),
    {
        if vs.len() == 0 {
            self
        } else {
            self.push_all(vs.drop_last()).push(vs.last())
        }
    }

    /// The slots in the order of their age: the slot at the cursor, which is the next to
    /// be overwritten, comes first.
    pub open spec fn by_age(self) -> Seq<Option<T>> {
        Seq::new(
            self.window.len(),
            |k: int| self.window[ring_slot(self.cursor as int, k, self.window.len() as int)],
        )
    }

    /// A push keeps the filter well formed.
    pub proof fn lemma_push_wf(self, v: T)
        requires
            self.wf(),
        ensures
            self.push(v).wf(),
            self.push(v).window.len() == self.window.len(),
            self.push(v).cursor == ring_slot(self.cursor as int, 1, self.window.len() as int),
    {
        let n = self.window.len() as int;
        if self.cursor + 1 < n {
            vstd::arithmetic::div_mod::lemma_small_mod((self.cursor + 1) as nat, n as nat);
        } else {
            vstd::arithmetic::div_mod::lemma_mod_self_0(n);
        }
    }

    /// A push drops the oldest slot and makes the new sample the youngest.
    pub proof fn lemma_push_by_age(self, v: T)
        requires
            self.wf(),
        ensures
            self.push(v).by_age() == self.by_age().drop_first().push(Some(v)),
    {
        self.lemma_push_wf(v);
        assert(self.push(v).by_age() =~= self.by_age().drop_first().push(Some(v)));
    }

    /// Pushes keep the filter well formed.
    pub proof fn lemma_push_all_wf(self, vs: Seq<T>)
        requires
            self.wf(),
        ensures
            self.push_all(vs).wf(),
            self.push_all(vs).window.len() == self.window.len(),
            self.push_all(vs).min_count == self.min_count,
        decreases vs.len(),
    {
        if vs.len() > 0 {
            self.lemma_push_all_wf(vs.drop_last());
            self.push_all(vs.drop_last()).lemma_push_wf(vs.last());
        }
    }

    /// Pushing one sequence after another is pushing their concatenation.
    pub proof fn lemma_push_all_add(self, vs: Seq<T>, ws: Seq<T>)
        ensures
            self.push_all(vs + ws) == self.push_all(vs).push_all(ws),
        decreases ws.len(),
    {
        if ws.len() == 0 {
            assert(vs + ws =~= vs);
        } else {
            self.lemma_push_all_add(vs, ws.drop_last());
            assert((vs + ws).drop_last() =~= vs + ws.drop_last());
            assert((vs + ws).last() == ws.last());
        }
    }

    /// After at least as many pushes as there are slots, the slots hold the most recent
    /// samples, the oldest of them in the slot at the cursor.
    pub proof fn lemma_push_all_by_age(self, vs: Seq<T>)
        requires
            self.wf(),
            vs.len() >= self.window.len(),
        ensures
            self.push_all(vs).by_age() == Seq::new(
                self.window.len(),
                |k: int| Some(vs[vs.len() - self.window.len() + k]),
            ),
    {
        let n = self.window.len() as int;
        self.lemma_push_all_tail(vs, n);
        assert(self.push_all(vs).by_age() =~= Seq::new(
            self.window.len(),
            |k: int| Some(vs[vs.len() - self.window.len() + k]),
        )) by {
            self.lemma_push_all_wf(vs);
        }
    }

    /// After `vs` went in, the `m` youngest slots hold the last `m` samples of `vs`.
    proof fn lemma_push_all_tail(self, vs: Seq<T>, m: int)
        requires
            self.wf(),
            0 <= m <= vs.len(),
            m <= self.window.len(),
        ensures
            forall|k: int|
                self.window.len() - m <= k < self.window.len() ==> (
                #[trigger] self.push_all(vs).by_age()[k]) == Some(
                    vs[vs.len() - self.window.len() + k],
                ),
        decreases vs.len(),
    {
        let n = self.window.len() as int;
        if vs.len() > 0 {
            let before = self.push_all(vs.drop_last());
            self.lemma_push_all_wf(vs.drop_last());
            before.lemma_push_by_age(vs.last());
            if m > 0 {
                self.lemma_push_all_tail(vs.drop_last(), m - 1);
            }
            assert forall|k: int| n - m <= k < n implies (#[trigger] self.push_all(vs).by_age()[k])
                == Some(vs[vs.len() - n + k]) by {
                if k < n - 1 {
                    assert(self.push_all(vs).by_age()[k] == before.by_age()[k + 1]);
                }
            }
        }
    }
}

/// The occurrences in a concatenation are those in its two parts.
pub proof fn lemma_occurrences_add<T: PartialEq>(a: Seq<T>, b: Seq<T>, v: T)
    ensures
        occurrences(a + b, v) == occurrences(a, v) + occurrences(b, v),
    decreases b.len(),
{
    if b.len() == 0 {
        assert(a + b =~= a);
    } else {
        lemma_occurrences_add(a, b.drop_last(), v);
        assert((a + b).drop_last() =~= a + b.drop_last());
        assert((a + b).last() == b.last());
    }
}

/// No sample occurs more often than there are samples.
pub proof fn lemma_occurrences_bound<T: PartialEq>(samples: Seq<T>, v: T)
    ensures
        occurrences(samples, v) <= samples.len(),
    decreases samples.len(),
{
    if samples.len() > 0 {
        lemma_occurrences_bound(samples.drop_last(), v);
    }
}

/// A sample that occurs at all stands at some index.
pub proof fn lemma_occurring_sample_has_index<T: PartialEq>(samples: Seq<T>, v: T) -> (i: int)
    requires
        eq_is_identity::<T>(),
        occurrences(samples, v) > 0,
    ensures
        0 <= i < samples.len(),
        samples[i] == v,
    decreases samples.len(),
{
    if samples.last().eq_spec(&v) {
        samples.len() - 1
    } else {
        lemma_occurring_sample_has_index(samples.drop_last(), v)
    }
}

/// Two different samples share the slots between them.
pub proof fn lemma_occurrences_of_two<T: PartialEq>(samples: Seq<T>, a: T, b: T)
    requires
        eq_is_identity::<T>(),
        a != b,
    ensures
        occurrences(samples, a) + occurrences(samples, b) <= samples.len(),
    decreases samples.len(),
{
    if samples.len() > 0 {
        lemma_occurrences_of_two(samples.drop_last(), a, b);
        assert(samples.last().eq_spec(&a) <==> samples.last() == a);
        assert(samples.last().eq_spec(&b) <==> samples.last() == b);
    }
}

/// Among the first `k` samples there is one that occurs at least as often as each of
/// them, and more often than each of those before it.
proof fn lemma_best_of_prefix<T: PartialEq>(samples: Seq<T>, k: int) -> (b: int)
    requires
        1 <= k <= samples.len(),
    ensures
        0 <= b < k,
        forall|j: int|
            0 <= j < k ==> occurrences(samples, #[trigger] samples[j]) <= occurrences(
                samples,
                samples[b],
            ),
        forall|j: int|
            0 <= j < b ==> occurrences(samples, #[trigger] samples[j]) < occurrences(
                samples,
                samples[b],
            ),
    decreases k,
{
    if k == 1 {
        0
    } else {
        let b = lemma_best_of_prefix(samples, k - 1);
        if occurrences(samples, samples[k - 1]) > occurrences(samples, samples[b]) {
            k - 1
        } else {
            b
        }
    }
}

/// Every window that holds a sample has a mode.
pub proof fn lemma_mode_exists<T: PartialEq>(samples: Seq<T>)
    requires
        samples.len() > 0,
    ensures
        exists|i: int| is_mode_at(samples, i),
{
    let b = lemma_best_of_prefix(samples, samples.len() as int);
    assert(is_mode_at(samples, b));
}

/// The number of distinct samples beside `v` and the occurrences of `v` fit into the
/// window together.
pub proof fn lemma_distinct_samples_bound<T: PartialEq>(samples: Seq<T>, v: T)
    requires
        eq_is_identity::<T>(),
    ensures
        samples.to_set().finite(),
        occurrences(samples, v) + samples.to_set().remove(v).len() <= samples.len(),
    decreases samples.len(),
{
    vstd::seq_lib::seq_to_set_is_finite(samples);
    if samples.len() == 0 {
        assert(samples.to_set().remove(v) =~= Set::<T>::empty());
    } else {
        let rest = samples.drop_last();
        let x = samples.last();
        lemma_distinct_samples_bound(rest, v);
        assert(samples =~= rest.push(x));
        assert(samples.to_set() =~= rest.to_set().insert(x)) by {
            assert forall|e: T| samples.to_set().contains(e) <==> rest.to_set().insert(
                x,
            ).contains(e) by {
                if samples.to_set().contains(e) {
                    let i = choose|i: int| 0 <= i < samples.len() && samples[i] == e;
                    if i < rest.len() {
                        assert(rest[i] == e);
                    }
                }
                if rest.to_set().contains(e) {
                    let i = choose|i: int| 0 <= i < rest.len() && rest[i] == e;
                    assert(samples[i] == e);
                }
                if e == x {
                    assert(samples[samples.len() - 1] == e);
                }
            }
        }
        assert(x.eq_spec(&v) <==> x == v);
        if x == v {
            assert(samples.to_set().remove(v) =~= rest.to_set().remove(v));
        } else {
            assert(samples.to_set().remove(v) =~= rest.to_set().remove(v).insert(x));
        }
    }
}

impl<T: PartialEq> ModeFilterView<T> {
    /// A sample that fills a majority of a full window, and at least `min_count` slots, is
    /// what the filter reports.
    pub proof fn lemma_frequent_sample_is_reported(self, v: T)
        requires
            eq_is_identity::<T>(),
            self.is_full(),
            occurrences(self.samples(), v) >= self.min_count,
            2 * occurrences(self.samples(), v) > self.window.len(),
        ensures
            self.mode() == Some(v),
    {
        let samples = self.samples();
        lemma_occurrences_bound(samples, v);
        lemma_mode_exists(samples);
        let i = choose|i: int| is_mode_at(samples, i);
        let j = lemma_occurring_sample_has_index(samples, v);
        assert(occurrences(samples, samples[j]) <= occurrences(samples, samples[i]));
        if samples[i] != v {
            lemma_occurrences_of_two(samples, samples[i], v);
        }
    }

    /// The filter reports nothing while a slot is empty.
    pub proof fn lemma_partial_window_reports_nothing(self, i: int)
        requires
            0 <= i < self.window.len(),
            self.window[i] is None,
        ensures
            self.mode() is None,
    {
    }

    /// What the filter reports occurs at least `min_count` times in a full window, and no
    /// sample occurs more often.
    pub proof fn lemma_reported_sample_is_frequent(self, v: T)
        requires
            self.mode() == Some(v),
        ensures
            self.is_full(),
            occurrences(self.samples(), v) >= self.min_count,
            forall|j: int|
                0 <= j < self.window.len() ==> occurrences(
                    self.samples(),
                    #[trigger] self.samples()[j],
                ) <= occurrences(self.samples(), v),
    {
    }

    /// A full window with more than `window - min_count` distinct samples, none of which
    /// occurs exactly `min_count` times, has no sample that occurs often enough: the filter
    /// reports nothing.
    pub proof fn lemma_scattered_window_reports_nothing(self)
        requires
            eq_is_identity::<T>(),
            self.min_count <= self.window.len(),
            self.samples().to_set().len() > self.window.len() - self.min_count,
            forall|v: T| occurrences(self.samples(), v) != self.min_count,
        ensures
            self.mode() is None,
    {
        let samples = self.samples();
        if self.mode() is Some {
            let v = self.mode().unwrap();
            self.lemma_reported_sample_is_frequent(v);
            lemma_distinct_samples_bound(samples, v);
            assert(samples.to_set().len() <= samples.to_set().remove(v).len() + 1);
        }
    }

    /// Before as many samples have come as there are slots, a filter that started blank
    /// still has empty slots, from the cursor on, and reports nothing.
    pub proof fn lemma_blank_needs_full_window(size: nat, min_count: nat, vs: Seq<T>)
        requires
            vs.len() < size,
        ensures
            Self::blank(size, min_count).push_all(vs).cursor == vs.len(),
            Self::blank(size, min_count).push_all(vs).window.len() == size,
            forall|k: int|
                vs.len() <= k < size ==> (#[trigger] Self::blank(size, min_count).push_all(
                    vs,
                ).window[k]) is None,
            Self::blank(size, min_count).push_all(vs).mode() is None,
        decreases vs.len(),
    {
        if vs.len() > 0 {
            Self::lemma_blank_needs_full_window(size, min_count, vs.drop_last());
            vstd::arithmetic::div_mod::lemma_small_mod(vs.len(), size);
        }
        let after = Self::blank(size, min_count).push_all(vs);
        assert(after.window[vs.len() as int] is None);
    }

    /// After at least as many pushes as there are slots, the window is full, and each
    /// sample occurs in it as often as among the most recent pushes.
    pub proof fn lemma_window_holds_recent_samples(self, vs: Seq<T>, v: T)
        requires
            self.wf(),
            vs.len() >= self.window.len(),
        ensures
            self.push_all(vs).is_full(),
            occurrences(self.push_all(vs).samples(), v) == occurrences(
                vs.subrange(vs.len() - self.window.len(), vs.len() as int),
                v,
            ),
    {
        let n = self.window.len() as int;
        let after = self.push_all(vs);
        let recent = vs.subrange(vs.len() - n, vs.len() as int);
        self.lemma_push_all_wf(vs);
        self.lemma_push_all_by_age(vs);
        let c = after.cursor as int;
        // The slot `i` is `n - c + i` places old if it lies before the cursor, and
        // `i - c` places old otherwise.
        assert forall|i: int| 0 <= i < n implies (#[trigger] after.window[i]) == Some(
            recent[if i < c {
                n - c + i
            } else {
                i - c
            }],
        ) by {
            let k = if i < c {
                n - c + i
            } else {
                i - c
            };
            assert(after.by_age()[k] == after.window[ring_slot(c, k, n)]);
        }
        let samples = after.samples();
        let young = recent.subrange(n - c, n);
        let old_part = recent.subrange(0, n - c);
        assert(samples =~= young + old_part);
        assert(recent =~= old_part + young);
        lemma_occurrences_add(young, old_part, v);
        lemma_occurrences_add(old_part, young, v);
    }
}

/// [`ModeFilter`] is a filter that finds the mode given `N` samples.
///
/// It will return `None` until `N` samples are recorded and the mode has reached
/// `min_count`.
#[derive(Debug)]
pub struct ModeFilter<T, const N: usize> {
    buf: [Option<T>; N],
    index: usize,
    min_count: usize,
}

impl<T: PartialEq + Copy, const N: usize> View for ModeFilter<T, N> {
    type V = ModeFilterView<T>;

    closed spec fn view(&self) -> ModeFilterView<T> {
        ModeFilterView {
            window: self.buf@,
            cursor: self.index as nat,
            min_count: self.min_count as nat,
        }
    }
}

impl<T, const N: usize> ModeFilter<T, N> {
    #[verifier::type_invariant]
    spec fn inv(self) -> bool {
        &&& self.index < N || (N == 0 && self.index == 0)
        &&& self.min_count <= N
    }
}

impl<T: PartialEq + Copy, const N: usize> Clone for ModeFilter<T, N> {
    /// A filter in the same state.
    fn clone(&self) -> (filter: Self)
        ensures
            filter@ == self@,
    {
        proof {
            use_type_invariant(self);
        }
        Self { buf: self.buf, index: self.index, min_count: self.min_count }
    }
}

impl<T: PartialEq + Copy, const N: usize> ModeFilter<T, N> {
    /// Create new instance of [`ModeFilter`]
    ///
    /// # Errors
    /// Returns an error if `min_count` exceeds `N`, the maximum sample count.
    pub fn new(min_count: usize) -> (r: Result<Self, Error>)
        ensures
            match r {
                Ok(filter) => min_count <= N && filter@ == ModeFilterView::<T>::blank(
                    N as nat,
                    min_count as nat,
                ),
                Err(e) => min_count > N && e == (Error::MinCountExceedsSize { min_count, size: N }),
            },
    {
        if min_count > N {
            return Err(Error::MinCountExceedsSize { min_count, size: N });
        }
        let filter = Self { buf: [None;N], index: 0, min_count };
        assert(filter@.window =~= ModeFilterView::<T>::blank(N as nat, min_count as nat).window);
        Ok(filter)
    }

    /// Push new sample to [`ModeFilter`]
    ///
    /// This will override the oldest value if the total number of samples exceeds `N`.
    pub fn push(&mut self, value: T)
        requires
            N > 0,
        ensures
            final(self)@ == old(self)@.push(value),
            old(self)@.wf(),
            final(self)@.wf(),
    {
        proof {
            use_type_invariant(&*self);
        }
        self.buf[self.index] = Some(value);
        self.index = (self.index + 1) % N;
    }

    /// Returns the statistical mode of the samples.
    ///
    /// Returns `None` while fewer than `N` samples have been recorded, and when the mode
    /// occurs less than `min_count` times. What is said of the result holds for a sample
    /// type whose `==` is specified.
    pub fn mode(&self) -> (r: Option<T>)
        ensures
            T::obeys_eq_spec() ==> r == self@.mode(),
    {
        let mut i: usize = 0;
        while i < N
            invariant
                i <= N,
                forall|j: int| 0 <= j < i ==> (#[trigger] self.buf@[j]) is Some,
            decreases N - i,
        {
            if self.buf[i].is_none() {
                assert(!self@.is_full());
                return None;
            }
            i += 1;
        }
        if N == 0 {
            return None;
        }
        assert(self@.is_full());
        let ghost samples = self@.samples();
        let mut best_val: T = self.buf[0].unwrap();
        let mut best_count: usize = 0;
        let ghost mut best_idx: int = 0;
        let mut c: usize = 0;
        while c < N
            invariant
                c <= N,
                N > 0,
                samples == self@.samples(),
                samples.len() == N,
                self@.is_full(),
                0 <= best_idx < N,
                best_idx < c || (c == 0 && best_idx == 0),
                best_val == samples[best_idx],
                best_count <= N,
                T::obeys_eq_spec() ==> {
                    &&& c == 0 ==> best_count == 0
                    &&& c > 0 ==> best_count == occurrences(samples, samples[best_idx])
                    &&& forall|j: int|
                        0 <= j < c ==> occurrences(samples, #[trigger] samples[j]) <= best_count
                    &&& forall|j: int|
                        0 <= j < best_idx ==> occurrences(samples, #[trigger] samples[j])
                            < best_count
                },
            decreases N - c,
        {
            let candidate: T = self.buf[c].unwrap();
            let mut count: usize = 0;
            let mut k: usize = 0;
            while k < N
                invariant
                    k <= N,
                    count <= k,
                    samples == self@.samples(),
                    samples.len() == N,
                    self@.is_full(),
                    T::obeys_eq_spec() ==> count == occurrences(samples.take(k as int), candidate),
                decreases N - k,
            {
                let v: T = self.buf[k].unwrap();
                proof {
                    assert(samples.take(k as int + 1).drop_last() =~= samples.take(k as int));
                    assert(samples.take(k as int + 1).last() == v);
                }
                if v == candidate {
                    count += 1;
                }
                k += 1;
            }
            assert(samples.take(N as int) =~= samples);
            if count > best_count {
                best_count = count;
                best_val = candidate;
                proof {
                    best_idx = c as int;
                }
            }
            c += 1;
        }
        proof {
            if T::obeys_eq_spec() {
                assert(is_mode_at(samples, best_idx));
                lemma_mode_unique(samples, best_idx, choose|i: int| is_mode_at(samples, i));
            }
        }
        if best_count >= self.min_count {
            Some(best_val)
        } else {
            None
        }
    }

    pub fn reset(&mut self)
        ensures
            final(self)@ == ModeFilterView::<T>::blank(N as nat, old(self)@.min_count),
    {
        proof {
            use_type_invariant(&*self);
        }
        self.buf = [None;N];
        self.index = 0;
        assert(self@.window =~= ModeFilterView::<T>::blank(N as nat, old(self)@.min_count).window);
    }
}

} // verus!
