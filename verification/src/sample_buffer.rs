//! A rolling window over the most recent timing samples.

use std::collections::VecDeque;
use vstd::prelude::*;

verus! {

/// The number of samples a [`SampleBuffer`] retains.
pub const SAMPLE_BUFFER_SIZE: usize = 60;

/// A non-negative span of time: whole seconds plus a nanosecond part.
#[derive(Clone, Copy, Debug, PartialEq, Eq, Structural)]
pub struct TimingSample {
    pub secs: u64,
    pub subsec_nanos: u32,
}

impl TimingSample {
    /// The span in nanoseconds.
    pub open spec fn nanos(self) -> nat {
        self.secs as nat * 1_000_000_000 + self.subsec_nanos as nat
    }

    pub fn new(secs: u64, subsec_nanos: u32) -> (sample: TimingSample)
        ensures
            sample.secs == secs,
            sample.subsec_nanos == subsec_nanos,
    {
        TimingSample { secs, subsec_nanos }
    }

    /// The span in nanoseconds.
    pub fn as_nanos(&self) -> (n: u128)
        ensures
            n == self.nanos(),
    {
        self.secs as u128 * 1_000_000_000u128 + self.subsec_nanos as u128
    }
}

/// The last `capacity` elements of `s`, or all of `s` if it has no more than that.
pub open spec fn keep_last<T>(s: Seq<T>, capacity: nat) -> Seq<T> {
    if s.len() <= capacity {
        s
    } else {
        s.subrange(s.len() - capacity, s.len() as int)
    }
}

/// The sum of all samples in `s`, in nanoseconds.
pub open spec fn total_nanos(s: Seq<TimingSample>) -> nat
    decreases s.len(),
{
    if s.len() == 0 {
        0
    } else {
        total_nanos(s.drop_last()) + s.last().nanos()
    }
}

/// The arithmetic mean of the samples in `s`, in whole nanoseconds, rounded
/// down; zero for an empty sequence.
pub open spec fn mean_nanos_of(s: Seq<TimingSample>) -> nat {
    if s.len() == 0 {
        0
    } else {
        total_nanos(s) / s.len()
    }
}

/// What a window of the given capacity holds after the samples in `pushed`
/// were pushed into it, one by one, when it held `start` before.
pub open spec fn push_all<T>(start: Seq<T>, pushed: Seq<T>, capacity: nat) -> Seq<T>
    decreases pushed.len(),
{
    if pushed.len() == 0 {
        start
    } else {
        keep_last(push_all(start, pushed.drop_last(), capacity).push(pushed.last()), capacity)
    }
}

/// A fixed-capacity first-in, first-out window of timing samples. Its view is
/// the retained samples, oldest first.
pub struct SampleBuffer {
    samples: VecDeque<TimingSample>,
}

impl View for SampleBuffer {
    type V = Seq<TimingSample>;

    closed spec fn view(&self) -> Seq<TimingSample> {
        self.samples@
    }
}

impl SampleBuffer {
    #[verifier::type_invariant]
    spec fn within_capacity(&self) -> bool {
        self.samples@.len() <= SAMPLE_BUFFER_SIZE
    }

    /// An empty buffer.
    pub fn new() -> (buffer: SampleBuffer)
        ensures
            buffer@ == Seq::<TimingSample>::empty(),
    {
        SampleBuffer { samples: VecDeque::with_capacity(SAMPLE_BUFFER_SIZE) }
    }

    /// Appends `time` as the newest sample and evicts from the front whatever
    /// no longer fits.
    pub fn push(&mut self, time: TimingSample)
        ensures
            final(self)@ == keep_last(old(self)@.push(time), SAMPLE_BUFFER_SIZE as nat),
            final(self)@.len() <= SAMPLE_BUFFER_SIZE,
    {
        let mut samples = VecDeque::new();
        std::mem::swap(&mut self.samples, &mut samples);
        samples.push_back(time);
        while samples.len() > SAMPLE_BUFFER_SIZE
            invariant
                samples@.len() <= old(self)@.len() + 1,
                samples@.len() >= SAMPLE_BUFFER_SIZE || samples@.len() == old(self)@.len() + 1,
                samples@ =~= keep_last(old(self)@.push(time), samples@.len()),
            decreases samples@.len(),
        {
            samples.pop_front();
        }
        std::mem::swap(&mut self.samples, &mut samples);
    }

    /// The number of samples held, which never exceeds [`SAMPLE_BUFFER_SIZE`].
    pub fn len(&self) -> (count: usize)
        ensures
            count == self@.len(),
            count <= SAMPLE_BUFFER_SIZE,
    {
        proof {
            use_type_invariant(self);
        }
        self.samples.len()
    }

    /// The sample at `index`, counted from the oldest.
    pub fn get(&self, index: usize) -> (sample: Option<TimingSample>)
        ensures
            sample == if index < self@.len() {
                Some(self@[index as int])
            } else {
                None
            },
    {
        if index < self.samples.len() {
            Some(self.samples[index])
        } else {
            None
        }
    }

    /// The arithmetic mean of the samples held, in whole nanoseconds, rounded
    /// down. An empty buffer has mean zero.
    pub fn mean_nanos(&self) -> (mean: u128)
        ensures
            mean == mean_nanos_of(self@),
            self@.len() == 0 ==> mean == 0,
    {
        proof {
            use_type_invariant(self);
        }
        let count: usize = self.samples.len();
        if count == 0 {
            return 0;
        }
        let mut total: u128 = 0;
        for index in 0..count
            invariant
                count == self.samples@.len(),
                count <= SAMPLE_BUFFER_SIZE,
                total == total_nanos(self.samples@.take(index as int)),
                total <= index * 0x1_0000_0000_0000_0000 * 1_000_000_001,
        {
            let sample = self.samples[index];
            proof {
                assert(self.samples@.take(index + 1).drop_last() =~= self.samples@.take(
                    index as int,
                ));
            }
            total = total + sample.as_nanos();
        }
        proof {
            assert(self.samples@.take(count as int) =~= self.samples@);
        }
        total / (count as u128)
    }
}

/// Pushing into a window that holds the last `capacity` elements of a
/// sequence leaves it holding the last `capacity` elements of the longer
/// sequence.
pub proof fn lemma_keep_last_push<T>(s: Seq<T>, x: T, capacity: nat)
    ensures
        keep_last(keep_last(s, capacity).push(x), capacity) == keep_last(s.push(x), capacity),
        keep_last(s, capacity).len() <= capacity,
        s.len() >= capacity ==> keep_last(s, capacity).len() == capacity,
{
    assert(keep_last(keep_last(s, capacity).push(x), capacity) =~= keep_last(
        s.push(x),
        capacity,
    ));
}

/// A rolling window holds the most recent samples in the order they were
/// pushed: after any run of pushes, a window of any capacity holds the last
/// `capacity` elements of what it held before followed by what was pushed.
pub proof fn lemma_push_all_keeps_last<T>(start: Seq<T>, pushed: Seq<T>, capacity: nat)
    requires
        start.len() <= capacity,
    ensures
        push_all(start, pushed, capacity) == keep_last(start + pushed, capacity),
        push_all(start, pushed, capacity).len() <= capacity,
    decreases pushed.len(),
{
    if pushed.len() == 0 {
        assert(start + pushed =~= start);
    } else {
        lemma_push_all_keeps_last(start, pushed.drop_last(), capacity);
        lemma_keep_last_push(start + pushed.drop_last(), pushed.last(), capacity);
        assert((start + pushed.drop_last()).push(pushed.last()) =~= start + pushed);
    }
}

/// Once `capacity + extra` samples were pushed into an empty window, it holds
/// exactly the last `capacity` of them, in the order they were pushed.
pub proof fn lemma_window_holds_last_pushed<T>(pushed: Seq<T>, capacity: nat, extra: nat)
    requires
        pushed.len() == capacity + extra,
    ensures
        push_all(Seq::<T>::empty(), pushed, capacity) == pushed.subrange(
            extra as int,
            pushed.len() as int,
        ),
        push_all(Seq::<T>::empty(), pushed, capacity).len() == capacity,
{
    lemma_push_all_keeps_last(Seq::<T>::empty(), pushed, capacity);
    assert(Seq::<T>::empty() + pushed =~= pushed);
    assert(keep_last(pushed, capacity) =~= pushed.subrange(extra as int, pushed.len() as int));
}

} // verus!
