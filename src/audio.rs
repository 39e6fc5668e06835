//! Audio buffers: samples at a known sample rate.
//!
//! The buffer is generic over the sample type; the pipeline uses 32-bit float
//! samples, whose arithmetic (downmixing, resampling) happens outside the
//! library.
use vstd::prelude::*;

verus! {

/// Sample rate the speech models expect.
pub const TARGET_SAMPLE_RATE: u32 = 16000;

/// Two buffers at different sample rates cannot be joined.
#[derive(Debug, Clone, Copy, PartialEq, Eq, Structural)]
pub struct RateMismatch {
    pub expected: u32,
    pub actual: u32,
}

impl RateMismatch {
    /// Description of the mismatch.
    pub fn message(&self) -> (r: String)
        ensures
            r@ == "Cannot append buffers with different sample rates"@,
    {
        "Cannot append buffers with different sample rates".to_owned()
    }
}

/// Mono samples at a known sample rate.
#[derive(Debug, Clone)]
pub struct AudioBuffer<S> {
    pub samples: Vec<S>,
    pub sample_rate: u32,
}

impl<S> AudioBuffer<S> {
    /// A buffer holding `samples` at `sample_rate`.
    pub fn new(samples: Vec<S>, sample_rate: u32) -> (r: Self)
        ensures
            r.samples@ == samples@,
            r.sample_rate == sample_rate,
    {
        AudioBuffer { samples, sample_rate }
    }

    /// An empty buffer at `sample_rate`.
    pub fn empty(sample_rate: u32) -> (r: Self)
        ensures
            r.samples@ == Seq::<S>::empty(),
            r.sample_rate == sample_rate,
    {
        AudioBuffer { samples: Vec::new(), sample_rate }
    }

    /// Number of samples.
    pub fn len(&self) -> (r: usize)
        ensures
            r == self.samples@.len(),
    {
        self.samples.len()
    }

    /// Append the samples of `other`, which must be at the same sample rate:
    /// joining audio of two rates is a programming error.
    pub fn append(&mut self, other: &AudioBuffer<S>)
        where
            S: Copy,
        requires
            old(self).sample_rate == other.sample_rate,
        ensures
            final(self).samples@ == old(self).samples@ + other.samples@,
            final(self).sample_rate == old(self).sample_rate,
    {
        let mut i: usize = 0;
        let ghost start = self.samples@;
        while i < other.samples.len()
            invariant
                0 <= i <= other.samples@.len(),
                self.samples@ == start + other.samples@.take(i as int),
                self.sample_rate == old(self).sample_rate,
            decreases other.samples@.len() - i,
        {
            self.samples.push(other.samples[i]);
            i = i + 1;
            assert(self.samples@ =~= start + other.samples@.take(i as int));
        }
        assert(other.samples@.take(i as int) =~= other.samples@);
    }

    /// Append the samples of `other` when both buffers have the same sample
    /// rate; otherwise fail with both rates and leave the buffer unchanged.
    pub fn try_append(&mut self, other: &AudioBuffer<S>) -> (r: Result<(), RateMismatch>)
        where
            S: Copy,
        ensures
            r is Ok <==> old(self).sample_rate == other.sample_rate,
            r is Ok ==> final(self).samples@ == old(self).samples@ + other.samples@,
            r is Err ==> r == Err::<(), RateMismatch>(
                RateMismatch { expected: old(self).sample_rate, actual: other.sample_rate },
            ) && final(self).samples@ == old(self).samples@,
            final(self).sample_rate == old(self).sample_rate,
    {
        if self.sample_rate != other.sample_rate {
            return Err(RateMismatch { expected: self.sample_rate, actual: other.sample_rate });
        }
        self.append(other);
        Ok(())
    }

    /// Duration in whole milliseconds, rounded down; zero at a sample rate
    /// of zero.
    pub fn duration_millis(&self) -> (r: u128)
        ensures
            self.sample_rate == 0 ==> r == 0,
            self.sample_rate > 0 ==> r == (self.samples@.len() as int * 1000) / (self.sample_rate as int),
    {
        if self.sample_rate == 0 {
            return 0;
        }
        let n = self.samples.len() as u128;
        assert(n * 1000 <= u128::MAX) by (nonlinear_arith)
            requires n <= usize::MAX;
        (n * 1000) / (self.sample_rate as u128)
    }

    /// Remove all samples; the sample rate stays.
    pub fn clear(&mut self)
        ensures
            final(self).samples@ == Seq::<S>::empty(),
            final(self).sample_rate == old(self).sample_rate,
    {
        self.samples.clear();
    }
}

} // verus!
