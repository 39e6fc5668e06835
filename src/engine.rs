//! The engine: readiness gate, model acquisition order, and the segmentation
//! of the processed audio stream into utterances.
//!
//! The engine is generic over the loaded components (voice activity detector
//! and transcriber), which are built outside the library from the model files.
//! Sample buffers are generic over the sample type.
use crate::config::ModelConfig;
use crate::models::{spec_model_id, speech_model_to_model_id, ModelId, ModelManager};
use crate::paths::PathError;
use crate::vad::VadEvent;
use vstd::prelude::*;

verus! {

/// Events reported while the engine initializes.
#[derive(Debug, Clone)]
pub enum InitEvent {
    /// A model is being downloaded.
    Downloading { model: String, bytes: u64, total: u64 },
    /// A model is being loaded.
    Loading { model: String },
    /// The engine is ready.
    Ready,
}

/// One step of the engine's initialization.
#[derive(Debug, Clone)]
pub enum InitStep {
    /// Report progress to the caller.
    Report(InitEvent),
    /// Make sure the model's file is present (downloading it if needed).
    Ensure(ModelId),
    /// Build the voice activity detector and the transcriber from the
    /// ensured files, then `install` them.
    BuildComponents,
}

/// The event reports loading the model of this name.
pub open spec fn reports_loading(e: InitEvent, name: Seq<char>) -> bool {
    match e {
        InitEvent::Loading { model } => model@ == name,
        _ => false,
    }
}

/// Number of steps of a complete initialization.
pub const INIT_STEPS: usize = 6;

/// Errors of the engine's lifecycle.
#[derive(Debug, Clone, Copy, PartialEq, Eq, Structural)]
pub enum EngineError {
    /// The run loop was asked for before `initialize` succeeded.
    NotInitialized,
}

impl EngineError {
    /// Human-readable description of the error.
    pub fn message(&self) -> (r: String)
        ensures
            r@ == "Engine not initialized — call initialize() first"@,
    {
        "Engine not initialized — call initialize() first".to_owned()
    }
}

/// Transcription engine: configuration, model store, and the components that
/// exist once initialization has succeeded.
pub struct Engine<C> {
    config: ModelConfig,
    model_manager: ModelManager,
    components: Option<C>,
}

impl<C> Engine<C> {
    /// Whether initialization has succeeded (and the components are present).
    pub closed spec fn initialized(&self) -> bool {
        self.components is Some
    }

    /// The loaded components, once initialization has succeeded.
    pub closed spec fn spec_components(&self) -> Option<C> {
        self.components
    }

    /// The engine's model configuration.
    pub closed spec fn spec_config(&self) -> ModelConfig {
        self.config
    }

    /// Engine storing its models under the XDG data directory.
    pub fn new(config: ModelConfig) -> (r: Result<Engine<C>, PathError>)
        ensures
            r is Ok ==> !r->Ok_0.initialized() && r->Ok_0.spec_config() == config,
            r is Err ==> r == Err::<Engine<C>, PathError>(PathError::DataDirUnavailable),
    {
        let model_manager = ModelManager::new()?;
        Ok(Engine { config, model_manager, components: None })
    }

    /// Engine with a given model store.
    pub fn with_model_manager(config: ModelConfig, model_manager: ModelManager) -> (r: Engine<C>)
        ensures
            !r.initialized(),
            r.spec_config() == config,
            r.spec_model_manager() == model_manager,
    {
        Engine { config, model_manager, components: None }
    }

    /// Whether the engine has been initialized.
    pub fn is_initialized(&self) -> (r: bool)
        ensures
            r == self.initialized(),
    {
        self.components.is_some()
    }

    /// The engine's model store.
    pub closed spec fn spec_model_manager(&self) -> ModelManager {
        self.model_manager
    }

    /// The model store.
    pub fn model_manager(&self) -> (r: &ModelManager)
        ensures
            *r == self.spec_model_manager(),
    {
        &self.model_manager
    }

    /// The models `initialize` makes sure of, in order: the voice activity
    /// model, then the configured speech model.
    pub fn required_models(&self) -> (r: (ModelId, ModelId))
        ensures
            r == (ModelId::SileroVad, spec_model_id(self.spec_config().model)),
    {
        (ModelId::SileroVad, speech_model_to_model_id(self.config.model))
    }

    /// The initialization step after `done` steps succeeded, in order:
    /// report loading the voice activity model, ensure it, report loading the
    /// speech model, ensure it, build the components, report ready. `None`
    /// after a failed step (initialization stops there, leaving the engine as
    /// it was, so it can be run again from the start) and after the last step.
    pub fn init_step(&self, done: usize, last_failed: bool) -> (r: Option<InitStep>)
        ensures
            last_failed ==> r is None,
            !last_failed && done == 0 ==> r is Some && r->0 is Report && reports_loading(r->0->Report_0, "silero-vad"@),
            !last_failed && done == 1 ==> r is Some && r->0 is Ensure && r->0->Ensure_0 == ModelId::SileroVad,
            !last_failed && done == 2 ==> r is Some && r->0 is Report
                && reports_loading(r->0->Report_0, spec_model_id(self.spec_config().model).spec_name()),
            !last_failed && done == 3 ==> r is Some && r->0 is Ensure
                && r->0->Ensure_0 == spec_model_id(self.spec_config().model),
            !last_failed && done == 4 ==> r is Some && r->0 is BuildComponents,
            !last_failed && done == 5 ==> r is Some && r->0 is Report && r->0->Report_0 is Ready,
            !last_failed && done >= INIT_STEPS ==> r is None,
    {
        if last_failed {
            return None;
        }
        let (vad, speech) = self.required_models();
        if done == 0 {
            Some(InitStep::Report(InitEvent::Loading { model: vad.name().to_owned() }))
        } else if done == 1 {
            Some(InitStep::Ensure(vad))
        } else if done == 2 {
            Some(InitStep::Report(InitEvent::Loading { model: speech.name().to_owned() }))
        } else if done == 3 {
            Some(InitStep::Ensure(speech))
        } else if done == 4 {
            Some(InitStep::BuildComponents)
        } else if done == 5 {
            Some(InitStep::Report(InitEvent::Ready))
        } else {
            None
        }
    }

    /// Language handed to the transcriber: none (automatic detection) when
    /// the first configured language is `auto` or none is configured,
    /// otherwise the first configured language.
    pub fn transcriber_language(&self) -> (r: Option<String>)
        ensures
            self.spec_config().languages@.len() == 0 ==> r is None,
            self.spec_config().languages@.len() > 0 ==> {
                let first = self.spec_config().languages@[0]@;
                if first == "auto"@ {
                    r is None
                } else {
                    r is Some && r->0@ == first
                }
            },
    {
        if self.config.languages.len() == 0 {
            return None;
        }
        let first = &self.config.languages[0];
        if str_equal(first.as_str(), "auto") {
            None
        } else {
            Some(first.clone())
        }
    }

    /// Record the components built from the acquired models: the last step of
    /// a successful initialization.
    pub fn install(&mut self, components: C)
        ensures
            final(self).initialized(),
            final(self).spec_components() == Some(components),
            final(self).spec_config() == old(self).spec_config(),
    {
        self.components = Some(components);
    }

    /// The readiness gate of the run loop: hand out the components, or fail
    /// with `NotInitialized` when initialization has not succeeded. The
    /// components are returned with `finish_run`.
    pub fn begin_run(&mut self) -> (r: Result<C, EngineError>)
        ensures
            r is Ok <==> old(self).initialized(),
            r is Err ==> r == Err::<C, EngineError>(EngineError::NotInitialized)
                && final(self).initialized() == old(self).initialized(),
            r is Ok ==> r->Ok_0 == old(self).spec_components()->0,
            !final(self).initialized(),
            final(self).spec_config() == old(self).spec_config(),
    {
        match self.components.take() {
            Some(c) => Ok(c),
            None => Err(EngineError::NotInitialized),
        }
    }

    /// Give back the components after the run loop ended.
    pub fn finish_run(&mut self, components: C)
        ensures
            final(self).initialized(),
            final(self).spec_components() == Some(components),
            final(self).spec_config() == old(self).spec_config(),
    {
        self.components = Some(components);
    }
}

/// Whether two strings hold the same characters.
pub fn str_equal(a: &str, b: &str) -> (r: bool)
    ensures
        r == (a@ == b@),
{
    let n = a.unicode_len();
    if n != b.unicode_len() {
        return false;
    }
    let mut i: usize = 0;
    while i < n
        invariant
            n == a@.len(),
            n == b@.len(),
            0 <= i <= n,
            forall|j: int| 0 <= j < i ==> a@[j] == b@[j],
        decreases n - i,
    {
        if a.get_char(i) != b.get_char(i) {
            return false;
        }
        i = i + 1;
    }
    assert(a@ =~= b@);
    true
}

/// Take the first `n` items of `pending` as one chunk, when there are at
/// least `n` of them (and `n` is not zero); otherwise leave it untouched.
pub fn take_chunk<T>(pending: &mut Vec<T>, n: usize) -> (r: Option<Vec<T>>)
    ensures
        n == 0 || old(pending)@.len() < n ==> r is None && final(pending)@ == old(pending)@,
        n > 0 && old(pending)@.len() >= n ==> {
            &&& r is Some
            &&& r->0@ == old(pending)@.take(n as int)
            &&& final(pending)@ == old(pending)@.skip(n as int)
        },
{
    if n == 0 || pending.len() < n {
        return None;
    }
    let mut chunk = pending.split_off(n);
    std::mem::swap(pending, &mut chunk);
    Some(chunk)
}

/// The speech buffer after one VAD chunk: a chunk seen while speaking is
/// kept; `SpeechStart` restarts the buffer with its own chunk; `SpeechEnd`
/// empties it.
pub open spec fn buffer_after<T>(buf: Seq<T>, chunk: Seq<T>, was_speaking: bool, event: Option<VadEvent>) -> Seq<T> {
    match event {
        Some(VadEvent::SpeechStart) => chunk,
        Some(VadEvent::SpeechEnd) => Seq::empty(),
        None => if was_speaking { buf + chunk } else { buf },
    }
}

/// The utterance to transcribe after one VAD chunk: on `SpeechEnd`, the
/// buffer with the chunk that ended it, unless that is empty.
pub open spec fn utterance_after<T>(buf: Seq<T>, chunk: Seq<T>, was_speaking: bool, event: Option<VadEvent>) -> Option<Seq<T>> {
    let kept = if was_speaking { buf + chunk } else { buf };
    if event == Some(VadEvent::SpeechEnd) && kept.len() > 0 {
        Some(kept)
    } else {
        None
    }
}

/// The chunks joined in order.
pub open spec fn concat_all<T>(chunks: Seq<Seq<T>>) -> Seq<T>
    decreases chunks.len(),
{
    if chunks.len() == 0 {
        Seq::empty()
    } else {
        concat_all(chunks.drop_last()) + chunks.last()
    }
}

/// The speech buffer after chunks seen while speaking that trigger no event.
pub open spec fn buffer_while_speaking<T>(buf: Seq<T>, chunks: Seq<Seq<T>>) -> Seq<T>
    decreases chunks.len(),
{
    if chunks.len() == 0 {
        buf
    } else {
        buffer_after(buffer_while_speaking(buf, chunks.drop_last()), chunks.last(), true, None)
    }
}

proof fn lemma_buffer_while_speaking<T>(buf: Seq<T>, chunks: Seq<Seq<T>>)
    ensures
        buffer_while_speaking(buf, chunks) == buf + concat_all(chunks),
    decreases chunks.len(),
{
    if chunks.len() == 0 {
        assert(buf + Seq::<T>::empty() =~= buf);
    } else {
        lemma_buffer_while_speaking(buf, chunks.drop_last());
        assert(buf + concat_all(chunks.drop_last()) + chunks.last() =~= buf + (concat_all(
            chunks.drop_last(),
        ) + chunks.last()));
    }
}

/// An utterance is the contiguous audio from the chunk that started speech
/// through the chunk that ended it, each chunk exactly once: after the
/// `SpeechStart` chunk, any chunks seen while speaking, and the `SpeechEnd`
/// chunk, the utterance handed out is their concatenation (when not empty),
/// and the buffer is left empty.
pub proof fn lemma_utterance_spans_start_to_end<T>(
    before: Seq<T>,
    was_speaking: bool,
    start: Seq<T>,
    middle: Seq<Seq<T>>,
    end: Seq<T>,
)
    ensures
        ({
            let started = buffer_after(before, start, was_speaking, Some(VadEvent::SpeechStart));
            let held = buffer_while_speaking(started, middle);
            let whole = start + concat_all(middle) + end;
            &&& utterance_after(held, end, true, Some(VadEvent::SpeechEnd)) == (if whole.len() > 0 {
                Some(whole)
            } else {
                None
            })
            &&& buffer_after(held, end, true, Some(VadEvent::SpeechEnd)) == Seq::<T>::empty()
        }),
{
    lemma_buffer_while_speaking(start, middle);
}

/// Audio accumulated for the utterance in progress.
pub struct SpeechBuffer<T> {
    samples: Vec<T>,
}

impl<T> View for SpeechBuffer<T> {
    type V = Seq<T>;

    closed spec fn view(&self) -> Seq<T> {
        self.samples@
    }
}

impl<T> SpeechBuffer<T> {
    /// An empty buffer.
    pub fn new() -> (r: Self)
        ensures
            r@ == Seq::<T>::empty(),
    {
        SpeechBuffer { samples: Vec::new() }
    }

    /// Number of buffered samples.
    pub fn len(&self) -> (r: usize)
        ensures
            r == self@.len(),
    {
        self.samples.len()
    }

    /// Account for one VAD chunk: `was_speaking` is the detector's state
    /// before the chunk, `event` what the chunk triggered. Each chunk is kept
    /// at most once. Returns the finished utterance when speech ended.
    pub fn on_chunk(&mut self, chunk: Vec<T>, was_speaking: bool, event: Option<VadEvent>) -> (r: Option<Vec<T>>)
        ensures
            final(self)@ == buffer_after(old(self)@, chunk@, was_speaking, event),
            r is Some <==> utterance_after(old(self)@, chunk@, was_speaking, event) is Some,
            r is Some ==> r->0@ == utterance_after(old(self)@, chunk@, was_speaking, event)->0,
    {
        let mut chunk = chunk;
        match event {
            Some(VadEvent::SpeechStart) => {
                self.samples = chunk;
                None
            },
            Some(VadEvent::SpeechEnd) => {
                if was_speaking {
                    self.samples.append(&mut chunk);
                }
                let mut done: Vec<T> = Vec::new();
                std::mem::swap(&mut self.samples, &mut done);
                if done.len() > 0 {
                    Some(done)
                } else {
                    None
                }
            },
            None => {
                if was_speaking {
                    self.samples.append(&mut chunk);
                }
                None
            },
        }
    }

    /// A chunk whose classification failed: the utterance in progress is
    /// lost, so the buffer is emptied and the chunk dropped.
    pub fn on_failed_chunk(&mut self, chunk: Vec<T>)
        ensures
            final(self)@ == Seq::<T>::empty(),
    {
        self.samples.clear();
    }

    /// Drop the buffered samples.
    pub fn clear(&mut self)
        ensures
            final(self)@ == Seq::<T>::empty(),
    {
        self.samples.clear();
    }
}

} // verus!
