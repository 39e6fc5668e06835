//! Voice activity hysteresis.
//!
//! A classifier scores each audio chunk with a speech probability. The state
//! machine here turns that stream of scores into debounced `SpeechStart` and
//! `SpeechEnd` events. Probabilities and the threshold are fixed-point values in
//! millionths (`PROBABILITY_SCALE` stands for 1.0).
use vstd::prelude::*;

verus! {

/// Fixed-point value that stands for a probability of 1.0.
pub const PROBABILITY_SCALE: u32 = 1000000;

/// Default speech probability threshold (0.5).
pub const DEFAULT_THRESHOLD: u32 = 500000;

/// Default number of consecutive speech chunks before `SpeechStart`.
pub const DEFAULT_MIN_SPEECH_CHUNKS: usize = 2;

/// Default number of consecutive silence chunks before `SpeechEnd`.
pub const DEFAULT_MIN_SILENCE_CHUNKS: usize = 8;

/// Sample rate expected by the voice activity classifier.
pub const VAD_SAMPLE_RATE: u32 = 16000;

/// Number of samples of the previous chunk prepended to each chunk.
pub const CONTEXT_SIZE: usize = 64;

/// Whether the classifier accepts chunks of this many samples at 16 kHz.
pub open spec fn is_supported_chunk_size(n: usize) -> bool {
    n == 512 || n == 1024 || n == 1536
}

/// Errors of the voice activity detector's input handling.
#[derive(Debug, Clone, Copy, PartialEq, Eq, Structural)]
pub enum VadError {
    /// The chunk size is none of 512, 1024 and 1536.
    InvalidChunkSize(usize),
    /// A chunk whose length differs from the configured chunk size.
    ChunkSizeMismatch { expected: usize, actual: usize },
}

/// Accept a chunk size the classifier supports.
pub fn check_chunk_size(n: usize) -> (r: Result<usize, VadError>)
    ensures
        is_supported_chunk_size(n) ==> r == Ok::<usize, VadError>(n),
        !is_supported_chunk_size(n) ==> r == Err::<usize, VadError>(VadError::InvalidChunkSize(n)),
{
    if n == 512 || n == 1024 || n == 1536 {
        Ok(n)
    } else {
        Err(VadError::InvalidChunkSize(n))
    }
}

/// The classifier's input framing: fixed-size chunks, each preceded by the
/// last `CONTEXT_SIZE` samples of the chunk before it (zeros at the start).
pub struct ChunkContext<T> {
    chunk_size: usize,
    context: Vec<T>,
    zero: T,
}

impl<T: Copy> ChunkContext<T> {
    pub closed spec fn spec_chunk_size(&self) -> usize {
        self.chunk_size
    }

    /// The samples prepended to the next chunk.
    pub closed spec fn spec_context(&self) -> Seq<T> {
        self.context@
    }

    /// The silent sample the context starts from.
    pub closed spec fn spec_zero(&self) -> T {
        self.zero
    }

    fn zeros(zero: T) -> (r: Vec<T>)
        ensures
            r@ == Seq::new(CONTEXT_SIZE as nat, |i: int| zero),
    {
        let mut v: Vec<T> = Vec::new();
        let mut i: usize = 0;
        while i < CONTEXT_SIZE
            invariant
                0 <= i <= CONTEXT_SIZE,
                v@ == Seq::new(i as nat, |j: int| zero),
            decreases CONTEXT_SIZE - i,
        {
            v.push(zero);
            i = i + 1;
            assert(v@ =~= Seq::new(i as nat, |j: int| zero));
        }
        v
    }

    /// Framing for chunks of `chunk_size` samples; fails on a size the
    /// classifier does not support.
    pub fn new(chunk_size: usize, zero: T) -> (r: Result<ChunkContext<T>, VadError>)
        ensures
            is_supported_chunk_size(chunk_size) <==> r is Ok,
            r is Ok ==> r->Ok_0.spec_chunk_size() == chunk_size && r->Ok_0.spec_zero() == zero
                && r->Ok_0.spec_context() == Seq::new(CONTEXT_SIZE as nat, |i: int| zero),
            r is Err ==> r == Err::<ChunkContext<T>, VadError>(VadError::InvalidChunkSize(chunk_size)),
    {
        let chunk_size = check_chunk_size(chunk_size)?;
        Ok(ChunkContext { chunk_size, context: Self::zeros(zero), zero })
    }

    /// The chunk size.
    pub fn chunk_size(&self) -> (r: usize)
        ensures
            r == self.spec_chunk_size(),
    {
        self.chunk_size
    }

    /// The classifier input for a chunk: the context followed by the chunk.
    /// Fails when the chunk does not have the configured size.
    pub fn input_for(&self, chunk: &[T]) -> (r: Result<Vec<T>, VadError>)
        ensures
            chunk@.len() == self.spec_chunk_size() <==> r is Ok,
            r is Ok ==> r->Ok_0@ == self.spec_context() + chunk@,
            r is Err ==> r == Err::<Vec<T>, VadError>(
                VadError::ChunkSizeMismatch { expected: self.spec_chunk_size(), actual: chunk@.len() as usize },
            ),
    {
        if chunk.len() != self.chunk_size {
            return Err(VadError::ChunkSizeMismatch { expected: self.chunk_size, actual: chunk.len() });
        }
        let mut input: Vec<T> = Vec::new();
        let mut i: usize = 0;
        while i < self.context.len()
            invariant
                0 <= i <= self.context@.len(),
                input@ == self.context@.take(i as int),
            decreases self.context@.len() - i,
        {
            input.push(self.context[i]);
            i = i + 1;
            assert(input@ =~= self.context@.take(i as int));
        }
        assert(self.context@.take(i as int) =~= self.context@);
        let mut j: usize = 0;
        while j < chunk.len()
            invariant
                0 <= j <= chunk@.len(),
                input@ == self.context@ + chunk@.take(j as int),
            decreases chunk@.len() - j,
        {
            input.push(chunk[j]);
            j = j + 1;
            assert(input@ =~= self.context@ + chunk@.take(j as int));
        }
        assert(chunk@.take(j as int) =~= chunk@);
        Ok(input)
    }

    /// After a chunk was classified: its last `CONTEXT_SIZE` samples become
    /// the context of the next one.
    pub fn advance(&mut self, chunk: &[T])
        requires
            is_supported_chunk_size(old(self).spec_chunk_size()),
            chunk@.len() == old(self).spec_chunk_size(),
        ensures
            final(self).spec_context() == chunk@.subrange(chunk@.len() - CONTEXT_SIZE, chunk@.len() as int),
            final(self).spec_chunk_size() == old(self).spec_chunk_size(),
            final(self).spec_zero() == old(self).spec_zero(),
    {
        let start = chunk.len() - CONTEXT_SIZE;
        let mut tail: Vec<T> = Vec::new();
        let mut i: usize = start;
        while i < chunk.len()
            invariant
                start == chunk@.len() - CONTEXT_SIZE,
                start <= i <= chunk@.len(),
                tail@ == chunk@.subrange(start as int, i as int),
            decreases chunk@.len() - i,
        {
            tail.push(chunk[i]);
            i = i + 1;
            assert(tail@ =~= chunk@.subrange(start as int, i as int));
        }
        self.context = tail;
    }

    /// Back to a silent context.
    pub fn reset(&mut self)
        ensures
            final(self).spec_context() == Seq::new(CONTEXT_SIZE as nat, |i: int| old(self).spec_zero()),
            final(self).spec_chunk_size() == old(self).spec_chunk_size(),
            final(self).spec_zero() == old(self).spec_zero(),
    {
        self.context = Self::zeros(self.zero);
    }
}

/// VAD event indicating a speech state change.
#[derive(Debug, Clone, Copy, PartialEq, Eq, Structural)]
pub enum VadEvent {
    /// Speech started.
    SpeechStart,
    /// Speech ended.
    SpeechEnd,
}

/// Configuration of the hysteresis.
#[derive(Debug, Clone, Copy, PartialEq, Eq, Structural)]
pub struct VadConfig {
    /// A chunk whose probability is at least this value counts as speech.
    pub threshold: u32,
    /// Consecutive speech chunks needed to trigger `SpeechStart`.
    pub min_speech_chunks: usize,
    /// Consecutive silence chunks needed to trigger `SpeechEnd`.
    pub min_silence_chunks: usize,
}

impl VadConfig {
    /// Whether a chunk with this probability counts as speech (inclusive).
    pub open spec fn is_speech(self, probability: u32) -> bool {
        probability >= self.threshold
    }
}

impl Default for VadConfig {
    fn default() -> (r: Self)
        ensures
            r.threshold == DEFAULT_THRESHOLD,
            r.min_speech_chunks == DEFAULT_MIN_SPEECH_CHUNKS,
            r.min_silence_chunks == DEFAULT_MIN_SILENCE_CHUNKS,
    {
        VadConfig {
            threshold: DEFAULT_THRESHOLD,
            min_speech_chunks: DEFAULT_MIN_SPEECH_CHUNKS,
            min_silence_chunks: DEFAULT_MIN_SILENCE_CHUNKS,
        }
    }
}

/// Counter increment that stops at the largest value.
pub open spec fn bump(c: usize) -> usize {
    if c == usize::MAX {
        c
    } else {
        (c + 1) as usize
    }
}

/// Mathematical state of the hysteresis machine.
pub struct VadModel {
    pub config: VadConfig,
    pub is_speaking: bool,
    pub speech_chunk_count: usize,
    pub silence_chunk_count: usize,
}

impl VadModel {
    /// The state right after construction or `reset`.
    pub open spec fn fresh(config: VadConfig) -> VadModel {
        VadModel { config, is_speaking: false, speech_chunk_count: 0, silence_chunk_count: 0 }
    }

    /// At most one of the two run counters is nonzero.
    pub open spec fn wf(self) -> bool {
        self.speech_chunk_count == 0 || self.silence_chunk_count == 0
    }

    /// The state after one chunk with the given probability.
    pub open spec fn step(self, probability: u32) -> VadModel {
        if self.config.is_speech(probability) {
            let n = bump(self.speech_chunk_count);
            VadModel {
                config: self.config,
                is_speaking: self.is_speaking || n >= self.config.min_speech_chunks,
                speech_chunk_count: n,
                silence_chunk_count: 0,
            }
        } else {
            let n = bump(self.silence_chunk_count);
            VadModel {
                config: self.config,
                is_speaking: self.is_speaking && n < self.config.min_silence_chunks,
                speech_chunk_count: 0,
                silence_chunk_count: n,
            }
        }
    }

    /// The event reported for one chunk with the given probability.
    pub open spec fn event(self, probability: u32) -> Option<VadEvent> {
        let next = self.step(probability);
        if !self.is_speaking && next.is_speaking {
            Some(VadEvent::SpeechStart)
        } else if self.is_speaking && !next.is_speaking {
            Some(VadEvent::SpeechEnd)
        } else {
            None
        }
    }

    /// The state after a sequence of chunks.
    pub open spec fn run(self, ps: Seq<u32>) -> VadModel
        decreases ps.len(),
    {
        if ps.len() == 0 {
            self
        } else {
            self.run(ps.drop_last()).step(ps.last())
        }
    }

    /// The events reported for a sequence of chunks, one per chunk.
    pub open spec fn events(self, ps: Seq<u32>) -> Seq<Option<VadEvent>>
        decreases ps.len(),
    {
        if ps.len() == 0 {
            Seq::empty()
        } else {
            self.events(ps.drop_last()).push(self.run(ps.drop_last()).event(ps.last()))
        }
    }
}

/// State machine that debounces speech/silence classifications.
#[derive(Debug)]
pub struct VadStateMachine {
    config: VadConfig,
    is_speaking: bool,
    speech_chunk_count: usize,
    silence_chunk_count: usize,
}

impl View for VadStateMachine {
    type V = VadModel;

    closed spec fn view(&self) -> VadModel {
        VadModel {
            config: self.config,
            is_speaking: self.is_speaking,
            speech_chunk_count: self.speech_chunk_count,
            silence_chunk_count: self.silence_chunk_count,
        }
    }
}

impl VadStateMachine {
    /// Create a new state machine: silent, both counters zero.
    pub fn new(config: VadConfig) -> (r: Self)
        ensures
            r@ == VadModel::fresh(config),
    {
        VadStateMachine { config, is_speaking: false, speech_chunk_count: 0, silence_chunk_count: 0 }
    }

    /// Feed one chunk's speech probability; report a state change, if any.
    pub fn process(&mut self, probability: u32) -> (r: Option<VadEvent>)
        ensures
            final(self)@ == old(self)@.step(probability),
            r == old(self)@.event(probability),
            final(self)@.wf(),
    {
        let is_speech = probability >= self.config.threshold;
        if is_speech {
            if self.speech_chunk_count < usize::MAX {
                self.speech_chunk_count = self.speech_chunk_count + 1;
            }
            self.silence_chunk_count = 0;
            if !self.is_speaking && self.speech_chunk_count >= self.config.min_speech_chunks {
                self.is_speaking = true;
                return Some(VadEvent::SpeechStart);
            }
        } else {
            if self.silence_chunk_count < usize::MAX {
                self.silence_chunk_count = self.silence_chunk_count + 1;
            }
            self.speech_chunk_count = 0;
            if self.is_speaking && self.silence_chunk_count >= self.config.min_silence_chunks {
                self.is_speaking = false;
                return Some(VadEvent::SpeechEnd);
            }
        }
        None
    }

    /// Whether the machine is in the speaking state.
    pub fn is_speaking(&self) -> (r: bool)
        ensures
            r == self@.is_speaking,
    {
        self.is_speaking
    }

    /// Back to silent, both counters zero; the configuration is kept.
    pub fn reset(&mut self)
        ensures
            final(self)@ == VadModel::fresh(old(self)@.config),
    {
        self.is_speaking = false;
        self.speech_chunk_count = 0;
        self.silence_chunk_count = 0;
    }

    /// The configuration the machine was built with.
    pub fn config(&self) -> (r: VadConfig)
        ensures
            r == self@.config,
    {
        self.config
    }
}

/// `events` has one entry per chunk, and entry `i` is the event of chunk `i`
/// fed to the state reached after the chunks before it.
pub proof fn lemma_events_index(m: VadModel, ps: Seq<u32>, i: int)
    requires
        0 <= i < ps.len(),
    ensures
        m.events(ps).len() == ps.len(),
        m.events(ps)[i] == m.run(ps.take(i)).event(ps[i]),
    decreases ps.len(),
{
    lemma_events_len(m, ps);
    if i < ps.len() - 1 {
        lemma_events_index(m, ps.drop_last(), i);
        assert(ps.drop_last().take(i) =~= ps.take(i));
    } else {
        assert(ps.drop_last() =~= ps.take(i));
    }
}

/// `events` has one entry per chunk.
pub proof fn lemma_events_len(m: VadModel, ps: Seq<u32>)
    ensures
        m.events(ps).len() == ps.len(),
    decreases ps.len(),
{
    if ps.len() > 0 {
        lemma_events_len(m, ps.drop_last());
    }
}

/// Running one more chunk is one more step.
pub proof fn lemma_run_take_step(m: VadModel, ps: Seq<u32>, k: int)
    requires
        0 <= k < ps.len(),
    ensures
        m.run(ps.take(k + 1)) == m.run(ps.take(k)).step(ps[k]),
{
    assert(ps.take(k + 1).drop_last() =~= ps.take(k));
}

/// A probability exactly equal to the threshold counts as speech: the speech
/// run grows by one (it stops at the largest counter value), the silence run
/// is cleared, speech never ends on it, and it starts speech exactly when the
/// machine was silent and the run reaches `min_speech_chunks`. One unit below
/// the threshold counts as silence.
pub proof fn lemma_threshold_inclusive(m: VadModel)
    ensures
        m.step(m.config.threshold).speech_chunk_count == bump(m.speech_chunk_count),
        m.speech_chunk_count < usize::MAX ==> m.step(m.config.threshold).speech_chunk_count
            == m.speech_chunk_count + 1,
        m.step(m.config.threshold).silence_chunk_count == 0,
        m.event(m.config.threshold) != Some(VadEvent::SpeechEnd),
        m.event(m.config.threshold) == Some(VadEvent::SpeechStart) <==> (!m.is_speaking && bump(
            m.speech_chunk_count,
        ) >= m.config.min_speech_chunks),
        m.config.threshold > 0 ==> m.step((m.config.threshold - 1) as u32).speech_chunk_count == 0,
        m.config.threshold > 0 ==> m.step((m.config.threshold - 1) as u32).silence_chunk_count
            == bump(m.silence_chunk_count),
{
}

proof fn lemma_all_speech_prefix(m: VadModel, ps: Seq<u32>, k: int)
    requires
        !m.is_speaking,
        m.speech_chunk_count == 0,
        1 <= m.config.min_speech_chunks,
        forall|j: int| 0 <= j < ps.len() ==> m.config.is_speech(#[trigger] ps[j]),
        0 <= k <= ps.len(),
    ensures
        m.run(ps.take(k)).config == m.config,
        m.run(ps.take(k)).is_speaking == (k >= m.config.min_speech_chunks),
        m.run(ps.take(k)).speech_chunk_count == (if k <= usize::MAX { k } else { usize::MAX as int }),
    decreases k,
{
    if k == 0 {
        assert(ps.take(0) =~= Seq::<u32>::empty());
    } else {
        lemma_all_speech_prefix(m, ps, k - 1);
        lemma_run_take_step(m, ps, k - 1);
    }
}

/// From a silent state with no speech run (as after construction or `reset`),
/// a run of speech chunks reports `SpeechStart` exactly once: at the chunk that
/// completes `min_speech_chunks` of them, and at no chunk before or after.
pub proof fn lemma_speech_start_exactly_once(m: VadModel, ps: Seq<u32>)
    requires
        !m.is_speaking,
        m.speech_chunk_count == 0,
        1 <= m.config.min_speech_chunks,
        forall|j: int| 0 <= j < ps.len() ==> m.config.is_speech(#[trigger] ps[j]),
    ensures
        m.events(ps).len() == ps.len(),
        forall|i: int|
            0 <= i < ps.len() ==> (#[trigger] m.events(ps)[i] == Some(VadEvent::SpeechStart)
                <==> i == m.config.min_speech_chunks - 1),
        forall|i: int| 0 <= i < ps.len() ==> #[trigger] m.events(ps)[i] != Some(VadEvent::SpeechEnd),
{
    lemma_events_len(m, ps);
    assert forall|i: int| 0 <= i < ps.len() implies (m.events(ps)[i] == Some(VadEvent::SpeechStart)
        <==> i == m.config.min_speech_chunks - 1) && m.events(ps)[i] != Some(VadEvent::SpeechEnd) by {
        lemma_events_index(m, ps, i);
        lemma_all_speech_prefix(m, ps, i);
        lemma_all_speech_prefix(m, ps, i + 1);
        lemma_run_take_step(m, ps, i);
    }
}

/// Number of consecutive speech chunks at the end of `ps`.
pub open spec fn trailing_speech(c: VadConfig, ps: Seq<u32>) -> nat
    decreases ps.len(),
{
    if ps.len() == 0 {
        0
    } else if c.is_speech(ps.last()) {
        trailing_speech(c, ps.drop_last()) + 1
    } else {
        0
    }
}

/// From a fresh machine, after any sequence of chunks: the speech counter is
/// the length of the trailing speech run (stopping at the largest value), and
/// a silent machine has fewer than `min_speech_chunks` speech chunks counted.
pub proof fn lemma_reachable_counts(c: VadConfig, ps: Seq<u32>)
    requires
        1 <= c.min_speech_chunks,
    ensures
        VadModel::fresh(c).run(ps).config == c,
        VadModel::fresh(c).run(ps).wf(),
        VadModel::fresh(c).run(ps).speech_chunk_count == (if trailing_speech(c, ps) <= usize::MAX {
            trailing_speech(c, ps) as int
        } else {
            usize::MAX as int
        }),
        !VadModel::fresh(c).run(ps).is_speaking ==> VadModel::fresh(c).run(ps).speech_chunk_count
            < c.min_speech_chunks,
    decreases ps.len(),
{
    if ps.len() > 0 {
        lemma_reachable_counts(c, ps.drop_last());
    }
}

/// For every sequence of probabilities fed to a fresh machine, chunk `i`
/// reports `SpeechStart` exactly when the machine was silent before it and
/// the chunks up to `i` end in a run of exactly `min_speech_chunks` speech
/// chunks: a shorter run never starts speech, and a chunk below the threshold
/// resets the run.
pub proof fn lemma_speech_start_iff_run_completes(c: VadConfig, ps: Seq<u32>, i: int)
    requires
        1 <= c.min_speech_chunks,
        0 <= i < ps.len(),
    ensures
        VadModel::fresh(c).events(ps).len() == ps.len(),
        VadModel::fresh(c).events(ps)[i] == Some(VadEvent::SpeechStart) <==> (
            !VadModel::fresh(c).run(ps.take(i)).is_speaking
            && trailing_speech(c, ps.take(i + 1)) == c.min_speech_chunks),
{
    let m = VadModel::fresh(c);
    lemma_events_index(m, ps, i);
    lemma_reachable_counts(c, ps.take(i));
    lemma_run_take_step(m, ps, i);
    assert(ps.take(i + 1).drop_last() =~= ps.take(i));
    assert(ps.take(i + 1).last() == ps[i]);
}

proof fn lemma_interrupted_prefix(c: VadConfig, ps: Seq<u32>, k: int)
    requires
        1 <= c.min_speech_chunks,
        ps.len() == 2 * c.min_speech_chunks - 1,
        forall|j: int| 0 <= j < ps.len() ==> (c.is_speech(#[trigger] ps[j]) <==> j != c.min_speech_chunks - 1),
        0 <= k <= ps.len(),
    ensures
        VadModel::fresh(c).run(ps.take(k)).config == c,
        !VadModel::fresh(c).run(ps.take(k)).is_speaking,
        VadModel::fresh(c).run(ps.take(k)).speech_chunk_count == (if k < c.min_speech_chunks { k } else { k - c.min_speech_chunks }),
    decreases k,
{
    if k == 0 {
        assert(ps.take(0) =~= Seq::<u32>::empty());
    } else {
        lemma_interrupted_prefix(c, ps, k - 1);
        lemma_run_take_step(VadModel::fresh(c), ps, k - 1);
    }
}

/// A speech run one short of `min_speech_chunks`, one silence chunk, then
/// again a run one short never reports `SpeechStart`: the silence chunk resets
/// the consecutive count.
pub proof fn lemma_interrupted_run_never_starts(c: VadConfig, ps: Seq<u32>)
    requires
        1 <= c.min_speech_chunks,
        ps.len() == 2 * c.min_speech_chunks - 1,
        forall|j: int| 0 <= j < ps.len() ==> (c.is_speech(#[trigger] ps[j]) <==> j != c.min_speech_chunks - 1),
    ensures
        VadModel::fresh(c).events(ps).len() == ps.len(),
        forall|i: int| 0 <= i < ps.len() ==> #[trigger] VadModel::fresh(c).events(ps)[i] != Some(VadEvent::SpeechStart),
        !VadModel::fresh(c).run(ps).is_speaking,
{
    let m = VadModel::fresh(c);
    lemma_events_len(m, ps);
    assert forall|i: int| 0 <= i < ps.len() implies m.events(ps)[i] != Some(VadEvent::SpeechStart) by {
        lemma_events_index(m, ps, i);
        lemma_interrupted_prefix(c, ps, i);
        lemma_interrupted_prefix(c, ps, i + 1);
        lemma_run_take_step(m, ps, i);
    }
    lemma_interrupted_prefix(c, ps, ps.len() as int);
    assert(ps.take(ps.len() as int) =~= ps);
}

} // verus!
