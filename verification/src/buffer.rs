//! A low-latency bounded sample buffer that keeps the newest audio.

use std::collections::VecDeque;
use vstd::prelude::*;

verus! {

#[derive(Clone, Copy, Debug, Default, PartialEq, Eq, Structural)]
pub struct BufferPushReport {
    pub dropped_samples: usize,
    pub total_dropped_samples: u64,
}

#[derive(Clone, Debug, PartialEq)]
pub struct BufferedAudioChunk<S> {
    pub start_micros: u64,
    pub end_micros: u64,
    pub samples: Vec<S>,
}

/// `a + b`, held at `u64::MAX`.
pub open spec fn saturating_add_spec(a: u64, b: u64) -> u64 {
    if a + b > u64::MAX { u64::MAX } else { (a + b) as u64 }
}

/// The duration of `count` samples at `sample_rate`, in whole microseconds;
/// the product is held at `u64::MAX` before dividing.
pub open spec fn duration_spec(count: nat, sample_rate: u32) -> u64 {
    let product: int = count as int * 1_000_000;
    let capped = if product > u64::MAX { u64::MAX as int } else { product };
    (capped / (sample_rate as int)) as u64
}

pub fn duration_micros(sample_count: usize, sample_rate: u32) -> (micros: u64)
    requires
        sample_rate > 0,
    ensures
        micros == duration_spec(sample_count as nat, sample_rate),
{
    let count = sample_count as u64;
    let product = if count > u64::MAX / 1_000_000 {
        u64::MAX
    } else {
        count * 1_000_000
    };
    product / (sample_rate as u64)
}

/// A low-latency bounded buffer. When a producer outruns inference, the oldest
/// audio is discarded so captions recover near live playback instead of
/// accumulating unbounded delay.
#[derive(Debug)]
pub struct BoundedSampleBuffer<S> {
    samples: VecDeque<S>,
    sample_rate: u32,
    capacity: usize,
    start_micros: Option<u64>,
    total_dropped_samples: u64,
}

impl<S: Copy> BoundedSampleBuffer<S> {
    /// The buffered samples, oldest first.
    pub closed spec fn contents(&self) -> Seq<S> {
        self.samples@
    }

    /// The capture time of the oldest buffered sample, when any is buffered.
    pub closed spec fn start(&self) -> Option<u64> {
        self.start_micros
    }

    pub closed spec fn rate(&self) -> u32 {
        self.sample_rate
    }

    pub closed spec fn limit(&self) -> nat {
        self.capacity as nat
    }

    pub closed spec fn dropped(&self) -> u64 {
        self.total_dropped_samples
    }

    /// A well-formed buffer never holds more samples than its capacity,
    /// which is positive, as is its sample rate.
    pub proof fn holds_at_most_its_capacity(&self)
        requires
            self.wf(),
        ensures
            self.contents().len() <= self.limit(),
            self.limit() > 0,
            self.rate() > 0,
    {
    }

    pub closed spec fn wf(&self) -> bool {
        &&& self.sample_rate > 0
        &&& self.capacity > 0
        &&& self.samples@.len() <= self.capacity
        &&& (self.start_micros is Some <==> self.samples@.len() > 0)
    }

    pub fn new(sample_rate: u32, capacity: usize) -> (buffer: Self)
        requires
            sample_rate > 0,
            capacity > 0,
        ensures
            buffer.wf(),
            buffer.limit() > 0,
            buffer.contents() == Seq::<S>::empty(),
            buffer.start() is None,
            buffer.rate() == sample_rate,
            buffer.limit() == capacity,
            buffer.dropped() == 0,
    {
        BoundedSampleBuffer {
            samples: VecDeque::with_capacity(capacity),
            sample_rate,
            capacity,
            start_micros: None,
            total_dropped_samples: 0,
        }
    }

    fn drop_oldest(&mut self, count: usize)
        requires
            count <= old(self).samples@.len(),
        ensures
            final(self).samples@ == old(self).samples@.skip(count as int),
            final(self).sample_rate == old(self).sample_rate,
            final(self).capacity == old(self).capacity,
            final(self).start_micros == old(self).start_micros,
            final(self).total_dropped_samples == old(self).total_dropped_samples,
    {
        let mut removed: usize = 0;
        while removed < count
            invariant
                removed <= count,
                count <= old(self).samples@.len(),
                self.samples@ == old(self).samples@.skip(removed as int),
                self.sample_rate == old(self).sample_rate,
                self.capacity == old(self).capacity,
                self.start_micros == old(self).start_micros,
                self.total_dropped_samples == old(self).total_dropped_samples,
            decreases count - removed,
        {
            let _ = self.samples.pop_front();
            removed = removed + 1;
            assert(self.samples@ =~= old(self).samples@.skip(removed as int));
        }
    }

    fn append_from(&mut self, samples: &[S], from: usize)
        requires
            from <= samples@.len(),
        ensures
            final(self).samples@ == old(self).samples@ + samples@.skip(from as int),
            final(self).sample_rate == old(self).sample_rate,
            final(self).capacity == old(self).capacity,
            final(self).start_micros == old(self).start_micros,
            final(self).total_dropped_samples == old(self).total_dropped_samples,
    {
        let mut index = from;
        while index < samples.len()
            invariant
                from <= index <= samples@.len(),
                self.samples@ == old(self).samples@ + samples@.subrange(from as int, index as int),
                self.sample_rate == old(self).sample_rate,
                self.capacity == old(self).capacity,
                self.start_micros == old(self).start_micros,
                self.total_dropped_samples == old(self).total_dropped_samples,
            decreases samples@.len() - index,
        {
            self.samples.push_back(samples[index]);
            index = index + 1;
            assert(self.samples@ =~= old(self).samples@ + samples@.subrange(from as int, index as int));
        }
        assert(samples@.subrange(from as int, samples@.len() as int) =~= samples@.skip(from as int));
    }

    /// Appends `samples`, captured from `start_micros` on. When the buffer
    /// overflows, the oldest samples are dropped and the buffer's start time
    /// moves forward by the duration of what was dropped.
    /// How `push` of `samples` captured from `start_micros` leaves the
    /// buffer `before` as `after`, reporting `report`.
    pub open spec fn push_relation(
        before: Self,
        after: Self,
        start_micros: u64,
        samples: Seq<S>,
        report: BufferPushReport,
    ) -> bool {
        &&& after.wf()
        &&& after.rate() == before.rate()
        &&& after.limit() == before.limit()
        &&& after.contents().len() <= after.limit()
        &&& after.contents().len() == if samples.len() == 0 {
            before.contents().len()
        } else if before.contents().len() + samples.len() > before.limit() {
            before.limit()
        } else {
            before.contents().len() + samples.len()
        }
        &&& report.dropped_samples == if samples.len() == 0 {
            0
        } else if before.contents().len() + samples.len() > before.limit() {
            before.contents().len() + samples.len() - before.limit()
        } else {
            0
        }
        &&& samples.len() > 0 ==> after.contents() == (before.contents() + samples).skip(
            report.dropped_samples as int,
        )
        &&& samples.len() == 0 ==> after.contents() == before.contents() && after.start()
            == before.start()
        &&& samples.len() >= before.limit() ==> after.start() == Some(
            saturating_add_spec(
                start_micros,
                duration_spec((samples.len() - before.limit()) as nat, before.rate()),
            ),
        )
        &&& 0 < samples.len() < before.limit() ==> {
            let began = match before.start() {
                Some(start) => start,
                None => start_micros,
            };
            after.start() == Some(
                if report.dropped_samples > 0 {
                    saturating_add_spec(
                        began,
                        duration_spec(report.dropped_samples as nat, before.rate()),
                    )
                } else {
                    began
                },
            )
        }
        &&& after.dropped() == saturating_add_spec(before.dropped(), report.dropped_samples as u64)
        &&& report.total_dropped_samples == after.dropped()
    }

    pub fn push(&mut self, start_micros: u64, samples: &[S]) -> (report: BufferPushReport)
        requires
            old(self).wf(),
        ensures
            old(self).contents().len() <= old(self).limit(),
            Self::push_relation(*old(self), *final(self), start_micros, samples@, report),
    {
        if samples.len() == 0 {
            return BufferPushReport {
                dropped_samples: 0,
                total_dropped_samples: self.total_dropped_samples,
            };
        }
        let ghost before = self.samples@;
        let dropped_samples = if samples.len() >= self.capacity {
            let dropped = self.samples.len() + (samples.len() - self.capacity);
            let incoming_prefix = samples.len() - self.capacity;
            self.samples.clear();
            self.append_from(samples, incoming_prefix);
            self.start_micros = Some(
                start_micros.saturating_add(duration_micros(incoming_prefix, self.sample_rate)),
            );
            assert((before + samples@).skip(dropped as int) =~= samples@.skip(incoming_prefix as int));
            dropped
        } else {
            if self.samples.len() == 0 {
                self.start_micros = Some(start_micros);
            }
            let held = self.samples.len();
            let overflow = if samples.len() > self.capacity - held {
                samples.len() - (self.capacity - held)
            } else {
                0
            };
            if overflow > 0 {
                self.drop_oldest(overflow);
                self.start_micros = match self.start_micros {
                    Some(start) => Some(start.saturating_add(duration_micros(overflow, self.sample_rate))),
                    None => None,
                };
            }
            self.append_from(samples, 0);
            assert(samples@.skip(0) =~= samples@);
            assert((before + samples@).skip(overflow as int) =~= before.skip(overflow as int) + samples@);
            overflow
        };
        assert(self.samples@ =~= (before + samples@).skip(dropped_samples as int));
        self.total_dropped_samples = self.total_dropped_samples.saturating_add(dropped_samples as u64);
        BufferPushReport { dropped_samples, total_dropped_samples: self.total_dropped_samples }
    }

    /// How `pop_exact` of `sample_count` samples leaves the buffer `before`
    /// as `after`, handing out `chunk`.
    pub open spec fn pop_relation(
        before: Self,
        after: Self,
        sample_count: nat,
        chunk: Option<BufferedAudioChunk<S>>,
    ) -> bool {
        &&& after.wf()
        &&& after.rate() == before.rate()
        &&& after.limit() == before.limit()
        &&& after.dropped() == before.dropped()
        &&& after.contents().len() <= after.limit()
        &&& (sample_count == 0 || before.contents().len() < sample_count) ==> chunk is None
            && after.contents() == before.contents() && after.start() == before.start()
        &&& (sample_count > 0 && before.contents().len() >= sample_count) ==> (chunk matches Some(c)
            && {
            let began = match before.start() {
                Some(start) => start,
                None => 0,
            };
            let ended = saturating_add_spec(began, duration_spec(sample_count, before.rate()));
            &&& c.start_micros == began
            &&& c.end_micros == ended
            &&& c.samples@ == before.contents().take(sample_count as int)
            &&& after.contents() == before.contents().skip(sample_count as int)
            &&& after.start() == if after.contents().len() == 0 {
                None
            } else {
                Some(ended)
            }
        })
    }

    /// Takes exactly `sample_count` of the oldest samples, with their time
    /// span, when that many are buffered.
    pub fn pop_exact(&mut self, sample_count: usize) -> (chunk: Option<BufferedAudioChunk<S>>)
        requires
            old(self).wf(),
        ensures
            Self::pop_relation(*old(self), *final(self), sample_count as nat, chunk),
    {
        if sample_count == 0 || self.samples.len() < sample_count {
            return None;
        }
        let start_micros = match self.start_micros {
            Some(start) => start,
            None => 0,
        };
        let end_micros = start_micros.saturating_add(duration_micros(sample_count, self.sample_rate));
        let ghost before = self.samples@;
        let mut samples: Vec<S> = Vec::new();
        let mut taken: usize = 0;
        while taken < sample_count
            invariant
                taken <= sample_count,
                sample_count <= before.len(),
                self.samples@ == before.skip(taken as int),
                samples@ == before.take(taken as int),
                self.sample_rate == old(self).sample_rate,
                self.capacity == old(self).capacity,
                self.start_micros == old(self).start_micros,
                self.total_dropped_samples == old(self).total_dropped_samples,
            decreases sample_count - taken,
        {
            match self.samples.pop_front() {
                Some(sample) => samples.push(sample),
                None => {},
            }
            taken = taken + 1;
            assert(self.samples@ =~= before.skip(taken as int));
            assert(samples@ =~= before.take(taken as int));
        }
        self.start_micros = if self.samples.len() == 0 {
            None
        } else {
            Some(end_micros)
        };
        Some(BufferedAudioChunk { start_micros, end_micros, samples })
    }

    pub fn clear(&mut self)
        requires
            old(self).wf(),
        ensures
            final(self).wf(),
            final(self).contents() == Seq::<S>::empty(),
            final(self).contents().len() <= final(self).limit(),
            final(self).start() is None,
            final(self).rate() == old(self).rate(),
            final(self).limit() == old(self).limit(),
            final(self).dropped() == old(self).dropped(),
    {
        self.samples.clear();
        self.start_micros = None;
    }

    pub fn available_samples(&self) -> (count: usize)
        ensures
            count == self.contents().len(),
    {
        self.samples.len()
    }

    pub fn total_dropped_samples(&self) -> (total: u64)
        ensures
            total == self.dropped(),
    {
        self.total_dropped_samples
    }
}

} // verus!
