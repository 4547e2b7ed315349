//! The bounded buffer of the most recent samples.

use vstd::prelude::*;
use vstd::slice::slice_subrange;
use vstd::slice::slice_to_vec;
use crate::time::Seconds;
use crate::time::least;
use crate::time::samples_in;
use crate::time::micros_of;

verus! {

/// The last `capacity` items of `history`, or all of it if it is shorter.
pub open spec fn most_recent<T>(history: Seq<T>, capacity: nat) -> Seq<T> {
    if history.len() <= capacity {
        history
    } else {
        history.subrange(history.len() - capacity, history.len() as int)
    }
}

/// The items of `s` from index `least(start, len)` up to `least(end, len)`;
/// empty where the clamped range is empty or inverted.
pub open spec fn clamped_range<T>(s: Seq<T>, start: nat, end: nat) -> Seq<T> {
    let lo = least(start, s.len());
    let hi = least(end, s.len());
    if lo >= hi {
        Seq::empty()
    } else {
        s.subrange(lo as int, hi as int)
    }
}

/// A bounded store of the most recent samples of one channel.
///
/// It never holds more than its capacity: a write that would go over evicts
/// the oldest samples first.
#[derive(Debug)]
pub struct AudioBuffer<T> {
    samples: Vec<T>,
    capacity: usize,
}

impl<T> View for AudioBuffer<T> {
    type V = Seq<T>;

    closed spec fn view(&self) -> Seq<T> {
        self.samples@
    }
}

impl<T> AudioBuffer<T> {
    #[verifier::type_invariant]
    spec fn within_capacity(self) -> bool {
        self.samples@.len() <= self.capacity
    }

    /// The most samples the buffer holds.
    pub closed spec fn spec_capacity(&self) -> usize {
        self.capacity
    }

    /// The most samples the buffer holds.
    #[verifier::when_used_as_spec(spec_capacity)]
    pub fn capacity(&self) -> (capacity: usize)
        ensures
            capacity == self.spec_capacity(),
            self@.len() <= capacity,
    {
        proof {
            use_type_invariant(self);
        }
        self.capacity
    }

    /// Empties the buffer; the capacity stays.
    pub fn clear(&mut self)
        ensures
            final(self)@ == Seq::<T>::empty(),
            final(self).spec_capacity() == old(self).spec_capacity(),
    {
        self.samples = Vec::new();
    }

    /// The number of samples held.
    pub fn len(&self) -> (n: usize)
        ensures
            n == self@.len(),
            n <= self.spec_capacity(),
    {
        proof {
            use_type_invariant(self);
        }
        self.samples.len()
    }

    /// Whether the buffer holds no sample.
    pub fn is_empty(&self) -> (empty: bool)
        ensures
            empty <==> self@.len() == 0,
    {
        self.samples.len() == 0
    }

    /// How long the held audio lasts at `sample_rate`.
    pub fn duration_sec(&self, sample_rate: u32) -> (duration: Seconds)
        ensures
            duration.micros == least(
                micros_of(self@.len(), sample_rate as nat),
                u64::MAX as nat,
            ),
    {
        Seconds::of_samples(self.samples.len(), sample_rate)
    }
}

impl<T: Copy> Clone for AudioBuffer<T> {
    /// A buffer of the same capacity that holds the same samples.
    fn clone(&self) -> (copy: Self)
        ensures
            copy@ == self@,
            copy.spec_capacity() == self.spec_capacity(),
    {
        proof {
            use_type_invariant(self);
        }
        AudioBuffer { samples: slice_to_vec(self.samples.as_slice()), capacity: self.capacity }
    }
}

impl<T: Copy> AudioBuffer<T> {
    /// An empty buffer that holds up to `capacity` samples.
    pub fn new(capacity: usize) -> (buffer: Self)
        ensures
            buffer@ == Seq::<T>::empty(),
            buffer.spec_capacity() == capacity,
    {
        AudioBuffer { samples: Vec::new(), capacity }
    }

    /// Appends `samples`, evicting the oldest samples so that the buffer holds
    /// the most recent `capacity` samples of everything written so far.
    pub fn push(&mut self, samples: &[T])
        ensures
            final(self)@ == most_recent(old(self)@ + samples@, old(self).spec_capacity() as nat),
            final(self).spec_capacity() == old(self).spec_capacity(),
            final(self)@.len() == least(
                old(self)@.len() + samples@.len(),
                old(self).spec_capacity() as nat,
            ),
            final(self)@.len() <= final(self).spec_capacity(),
    {
        proof {
            use_type_invariant(&*self);
        }
        let incoming: usize = samples.len();
        let held: usize = self.samples.len();
        if incoming >= self.capacity {
            let newest = slice_subrange(samples, incoming - self.capacity, incoming);
            self.samples = slice_to_vec(newest);
            assert(self.samples@ == most_recent(old(self)@ + samples@, self.capacity as nat));
        } else {
            let room: usize = self.capacity - incoming;
            let mut kept: Vec<T> = Vec::new();
            core::mem::swap(&mut self.samples, &mut kept);
            if held > room {
                kept = kept.split_off(held - room);
            }
            let ghost kept_seq = kept@;
            assert(kept_seq + samples@ == most_recent(
                old(self)@ + samples@,
                self.capacity as nat,
            ));
            let mut i: usize = 0;
            while i < incoming
                invariant
                    i <= incoming,
                    incoming == samples@.len(),
                    kept@ == kept_seq + samples@.subrange(0, i as int),
                decreases incoming - i,
            {
                kept.push(samples[i]);
                i += 1;
            }
            assert(samples@.subrange(0, incoming as int) == samples@);
            self.samples = kept;
        }
    }

    /// The same write as [`AudioBuffer::push`], for a producer that must not
    /// suspend: it does bounded work only.
    pub fn push_blocking(&mut self, samples: &[T])
        ensures
            final(self)@ == most_recent(old(self)@ + samples@, old(self).spec_capacity() as nat),
            final(self).spec_capacity() == old(self).spec_capacity(),
            final(self)@.len() == least(
                old(self)@.len() + samples@.len(),
                old(self).spec_capacity() as nat,
            ),
            final(self)@.len() <= final(self).spec_capacity(),
    {
        self.push(samples)
    }

    /// A copy of everything held, oldest sample first.
    pub fn get_all(&self) -> (all: Vec<T>)
        ensures
            all@ == self@,
    {
        slice_to_vec(self.samples.as_slice())
    }

    /// The most recent `count` samples, or everything held if that is less.
    pub fn latest(&self, count: usize) -> (chunk: Vec<T>)
        ensures
            chunk@ == most_recent(self@, count as nat),
    {
        let held: usize = self.samples.len();
        if held <= count {
            slice_to_vec(self.samples.as_slice())
        } else {
            slice_to_vec(slice_subrange(self.samples.as_slice(), held - count, held))
        }
    }

    /// The samples from index `start` up to index `end`, both clamped to
    /// what is held; empty where that range is empty or inverted.
    pub fn range(&self, start: usize, end: usize) -> (chunk: Vec<T>)
        ensures
            chunk@ == clamped_range(self@, start as nat, end as nat),
    {
        let held: usize = self.samples.len();
        let start_idx: usize = if start < held { start } else { held };
        let end_idx: usize = if end < held { end } else { held };
        if start_idx >= end_idx {
            Vec::new()
        } else {
            slice_to_vec(slice_subrange(self.samples.as_slice(), start_idx, end_idx))
        }
    }

    /// The most recent `duration` of audio at `sample_rate`, or everything
    /// held if that is less.
    pub fn get_chunk(&self, duration: Seconds, sample_rate: u32) -> (chunk: Vec<T>)
        ensures
            chunk@ == most_recent(
                self@,
                least(samples_in(duration.micros as nat, sample_rate as nat), usize::MAX as nat),
            ),
            self@.len() <= samples_in(duration.micros as nat, sample_rate as nat) ==> chunk@
                == self@,
            self@.len() > samples_in(duration.micros as nat, sample_rate as nat) ==> chunk@.len()
                == samples_in(duration.micros as nat, sample_rate as nat) && chunk@
                == self@.subrange(
                self@.len() - samples_in(duration.micros as nat, sample_rate as nat),
                self@.len() as int,
            ),
    {
        proof {
            use_type_invariant(self);
        }
        self.latest(duration.sample_count(sample_rate))
    }

    /// The samples from `start` up to `end` at `sample_rate`, both clamped to
    /// what is held; empty where that range is empty or inverted.
    pub fn get_chunk_range(&self, start: Seconds, end: Seconds, sample_rate: u32) -> (chunk: Vec<T>)
        ensures
            chunk@ == clamped_range(
                self@,
                least(samples_in(start.micros as nat, sample_rate as nat), usize::MAX as nat),
                least(samples_in(end.micros as nat, sample_rate as nat), usize::MAX as nat),
            ),
    {
        self.range(start.sample_count(sample_rate), end.sample_count(sample_rate))
    }
}

/// What is kept of a history is as long as the history, up to the capacity.
pub proof fn lemma_most_recent_len<T>(history: Seq<T>, capacity: nat)
    ensures
        most_recent(history, capacity).len() == least(history.len(), capacity),
        most_recent(history, capacity).len() <= capacity,
{
}

/// What is kept is the tail of the history, sample for sample and in the
/// order in which it was written.
pub proof fn lemma_most_recent_is_tail<T>(history: Seq<T>, capacity: nat, i: int)
    requires
        0 <= i < most_recent(history, capacity).len(),
    ensures
        most_recent(history, capacity)[i] == history[history.len() - most_recent(
            history,
            capacity,
        ).len() + i],
{
}

/// Writing to a buffer that holds the most recent samples of a history
/// leaves it holding the most recent samples of the longer history: however
/// the writes are cut, a buffer that began empty holds the last `capacity`
/// samples of all that was written, or all of it if that is less.
pub proof fn lemma_push_keeps_most_recent<T>(history: Seq<T>, samples: Seq<T>, capacity: nat)
    ensures
        most_recent(most_recent(history, capacity) + samples, capacity) == most_recent(
            history + samples,
            capacity,
        ),
{
    let kept = most_recent(history, capacity);
    assert(most_recent(kept + samples, capacity) =~= most_recent(history + samples, capacity));
}

/// Everything that `writes` wrote, in the order in which it was written.
pub open spec fn all_written<T>(writes: Seq<Seq<T>>) -> Seq<T>
    decreases writes.len(),
{
    if writes.len() == 0 {
        Seq::empty()
    } else {
        all_written(writes.drop_last()) + writes.last()
    }
}

/// What a buffer of `capacity` that began empty holds after `writes`, each
/// write doing what [`AudioBuffer::push`] does.
pub open spec fn held_after<T>(writes: Seq<Seq<T>>, capacity: nat) -> Seq<T>
    decreases writes.len(),
{
    if writes.len() == 0 {
        Seq::empty()
    } else {
        most_recent(held_after(writes.drop_last(), capacity) + writes.last(), capacity)
    }
}

/// After any number of writes a buffer that began empty holds no more than
/// its capacity, and what it holds is the most recent of everything
/// written: all of it if that fits, else its last `capacity` samples, in
/// the order in which they were written.
pub proof fn lemma_buffer_holds_most_recent<T>(writes: Seq<Seq<T>>, capacity: nat)
    ensures
        held_after(writes, capacity) == most_recent(all_written(writes), capacity),
        held_after(writes, capacity).len() == least(all_written(writes).len(), capacity),
        held_after(writes, capacity).len() <= capacity,
    decreases writes.len(),
{
    if writes.len() > 0 {
        lemma_buffer_holds_most_recent(writes.drop_last(), capacity);
        lemma_push_keeps_most_recent(all_written(writes.drop_last()), writes.last(), capacity);
    }
}

} // verus!
