//! The controller's lifecycle: Initializing → Paused ⇄ Listening → Stopped.
//!
//! This is the decision part of the controller. It owns the engine while the
//! engine is not running and hands it out when listening starts; the caller
//! runs the engine task, joins it, and gives the engine back. Every transition
//! is a method here, so the caller serializes them by holding one lock.
use crate::config::InitialState;
use crate::engine::{str_equal, Engine};
use vstd::prelude::*;

verus! {

/// Controller state.
#[derive(Debug, Clone, Copy, PartialEq, Eq, Structural)]
pub enum ControllerState {
    Initializing,
    Stopped,
    Listening,
    Paused,
}

/// Rejection of a lifecycle request.
#[derive(Debug, Clone, Copy, PartialEq, Eq, Structural)]
pub enum ControllerError {
    /// The daemon has been shut down.
    Stopped,
    /// Models are still being acquired.
    StillInitializing,
    /// The engine is out (running, or lost with a crashed task).
    EngineUnavailable,
    /// The engine has not been initialized.
    EngineNotInitialized,
}

impl ControllerError {
    /// Human-readable description of the rejection.
    pub fn message(&self) -> (r: String)
        ensures
            *self == ControllerError::Stopped ==> r@ == "Daemon is stopped"@,
            *self == ControllerError::StillInitializing ==> r@ == "Daemon is still initializing"@,
            *self == ControllerError::EngineUnavailable ==> r@ == "Engine not available"@,
            *self == ControllerError::EngineNotInitialized ==> r@ == "Engine not initialized"@,
    {
        let s = match self {
            ControllerError::Stopped => "Daemon is stopped",
            ControllerError::StillInitializing => "Daemon is still initializing",
            ControllerError::EngineUnavailable => "Engine not available",
            ControllerError::EngineNotInitialized => "Engine not initialized",
        };
        s.to_owned()
    }
}

/// Outcome of a successful `start_listening`.
pub enum StartOutcome<C> {
    /// Run this engine in a task with a fresh cancellation token.
    Spawn(Engine<C>),
    /// Already listening: nothing to do.
    AlreadyListening,
}

/// Outcome of a successful `stop_listening`.
#[derive(Debug, Clone, Copy, PartialEq, Eq, Structural)]
pub enum StopOutcome {
    /// Cancel the engine task, wait for it, and give the engine back.
    JoinTask,
    /// Already paused: nothing to do.
    AlreadyPaused,
}

/// Mathematical state of the controller.
pub struct ControllerModel {
    pub state: ControllerState,
    /// The controller holds the engine.
    pub has_engine: bool,
    /// The engine it holds has been initialized.
    pub engine_ready: bool,
    /// The shutdown signal has not fired yet.
    pub signal_armed: bool,
}

impl ControllerModel {
    /// The state of a new controller holding an engine.
    pub open spec fn fresh(engine_ready: bool) -> ControllerModel {
        ControllerModel { state: ControllerState::Initializing, has_engine: true, engine_ready, signal_armed: true }
    }

    pub open spec fn after_mark_ready(self) -> ControllerModel {
        if self.state == ControllerState::Initializing {
            ControllerModel { state: ControllerState::Paused, ..self }
        } else {
            self
        }
    }

    /// Result of `start_listening`: `Ok(true)` when the engine is handed out.
    pub open spec fn start_result(self) -> Result<bool, ControllerError> {
        match self.state {
            ControllerState::Paused => if !self.has_engine {
                Err(ControllerError::EngineUnavailable)
            } else if !self.engine_ready {
                Err(ControllerError::EngineNotInitialized)
            } else {
                Ok(true)
            },
            ControllerState::Listening => Ok(false),
            ControllerState::Stopped => Err(ControllerError::Stopped),
            ControllerState::Initializing => Err(ControllerError::StillInitializing),
        }
    }

    pub open spec fn after_start(self) -> ControllerModel {
        if self.start_result() == Ok::<bool, ControllerError>(true) {
            ControllerModel { state: ControllerState::Listening, has_engine: false, engine_ready: false, ..self }
        } else {
            self
        }
    }

    pub open spec fn stop_result(self) -> Result<StopOutcome, ControllerError> {
        match self.state {
            ControllerState::Listening => Ok(StopOutcome::JoinTask),
            ControllerState::Paused => Ok(StopOutcome::AlreadyPaused),
            ControllerState::Stopped => Err(ControllerError::Stopped),
            ControllerState::Initializing => Err(ControllerError::StillInitializing),
        }
    }

    pub open spec fn after_stop(self) -> ControllerModel {
        if self.state == ControllerState::Listening {
            ControllerModel { state: ControllerState::Paused, ..self }
        } else {
            self
        }
    }

    pub open spec fn after_shutdown(self) -> ControllerModel {
        ControllerModel { state: ControllerState::Stopped, signal_armed: false, ..self }
    }
}

/// The controller's lifecycle state machine.
pub struct Controller<C> {
    state: ControllerState,
    engine: Option<Engine<C>>,
    signal_armed: bool,
    initial_state: InitialState,
}

impl<C> View for Controller<C> {
    type V = ControllerModel;

    closed spec fn view(&self) -> ControllerModel {
        ControllerModel {
            state: self.state,
            has_engine: self.engine is Some,
            engine_ready: self.engine is Some && self.engine->0.initialized(),
            signal_armed: self.signal_armed,
        }
    }
}

impl<C> Controller<C> {
    /// The engine the controller holds, if any.
    pub closed spec fn spec_engine(&self) -> Option<Engine<C>> {
        self.engine
    }

    /// The state entered once initialization completes.
    pub closed spec fn spec_initial_state(&self) -> InitialState {
        self.initial_state
    }

    /// A controller in `Initializing`, holding the engine, with the shutdown
    /// signal armed.
    pub fn new(engine: Engine<C>, initial_state: InitialState) -> (r: Self)
        ensures
            r@ == ControllerModel::fresh(engine.initialized()),
            r.spec_engine() == Some(engine),
            r.spec_initial_state() == initial_state,
    {
        Controller { state: ControllerState::Initializing, engine: Some(engine), signal_armed: true, initial_state }
    }

    /// Whether the engine is lost: paused without an engine, which happens
    /// when the engine task crashed and the engine could not be reclaimed.
    /// Listening cannot start again until the daemon restarts.
    pub fn engine_lost(&self) -> (r: bool)
        ensures
            r == (self@.state == ControllerState::Paused && !self@.has_engine),
    {
        matches!(self.state, ControllerState::Paused) && self.engine.is_none()
    }

    /// The current state.
    pub fn state(&self) -> (r: ControllerState)
        ensures
            r == self@.state,
    {
        self.state
    }

    /// Whether listening should start right after initialization.
    pub fn auto_start(&self) -> (r: bool)
        ensures
            r == (self.spec_initial_state() == InitialState::Listening),
    {
        matches!(self.initial_state, InitialState::Listening)
    }

    /// Initialization completed: `Initializing` becomes `Paused`. Returns
    /// whether the state changed; from any other state nothing happens.
    pub fn mark_ready(&mut self) -> (r: bool)
        ensures
            final(self)@ == old(self)@.after_mark_ready(),
            r == (old(self)@.state == ControllerState::Initializing),
            final(self).spec_engine() == old(self).spec_engine(),
            final(self).spec_initial_state() == old(self).spec_initial_state(),
    {
        if let ControllerState::Initializing = self.state {
            self.state = ControllerState::Paused;
            true
        } else {
            false
        }
    }

    /// Start listening. From `Paused` the engine is handed out to be run, and
    /// the state becomes `Listening`; an engine that is missing or not
    /// initialized is refused, and an uninitialized one stays with the
    /// controller unchanged. From `Listening` nothing happens. From
    /// `Stopped` and `Initializing` the request is rejected.
    pub fn start_listening(&mut self) -> (r: Result<StartOutcome<C>, ControllerError>)
        ensures
            final(self)@ == old(self)@.after_start(),
            r is Ok <==> old(self)@.start_result() is Ok,
            r is Ok ==> (old(self)@.start_result() == Ok::<bool, ControllerError>(true) <==> r->Ok_0 is Spawn),
            r is Err ==> old(self)@.start_result() == Err::<bool, ControllerError>(r->Err_0),
            r is Ok && r->Ok_0 is Spawn ==> Some(r->Ok_0->Spawn_0) == old(self).spec_engine()
                && r->Ok_0->Spawn_0.initialized() && final(self).spec_engine() is None,
            !(r is Ok && r->Ok_0 is Spawn) ==> final(self).spec_engine() == old(self).spec_engine(),
            final(self).spec_initial_state() == old(self).spec_initial_state(),
    {
        match self.state {
            ControllerState::Paused => {
                match self.engine.take() {
                    None => Err(ControllerError::EngineUnavailable),
                    Some(engine) => {
                        if !engine.is_initialized() {
                            self.engine = Some(engine);
                            return Err(ControllerError::EngineNotInitialized);
                        }
                        self.state = ControllerState::Listening;
                        Ok(StartOutcome::Spawn(engine))
                    },
                }
            },
            ControllerState::Listening => Ok(StartOutcome::AlreadyListening),
            ControllerState::Stopped => Err(ControllerError::Stopped),
            ControllerState::Initializing => Err(ControllerError::StillInitializing),
        }
    }

    /// Stop listening. From `Listening` the state becomes `Paused` and the
    /// caller cancels and joins the engine task. From `Paused` nothing
    /// happens. From `Stopped` and `Initializing` the request is rejected.
    pub fn stop_listening(&mut self) -> (r: Result<StopOutcome, ControllerError>)
        ensures
            final(self)@ == old(self)@.after_stop(),
            r == old(self)@.stop_result(),
            final(self).spec_engine() == old(self).spec_engine(),
            final(self).spec_initial_state() == old(self).spec_initial_state(),
    {
        match self.state {
            ControllerState::Listening => {
                self.state = ControllerState::Paused;
                Ok(StopOutcome::JoinTask)
            },
            ControllerState::Paused => Ok(StopOutcome::AlreadyPaused),
            ControllerState::Stopped => Err(ControllerError::Stopped),
            ControllerState::Initializing => Err(ControllerError::StillInitializing),
        }
    }

    /// Shut down: the state becomes `Stopped`. Returns whether the shutdown
    /// signal fires now; it fires on the first call only.
    pub fn shutdown(&mut self) -> (r: bool)
        ensures
            final(self)@ == old(self)@.after_shutdown(),
            r == old(self)@.signal_armed,
            final(self).spec_engine() == old(self).spec_engine(),
            final(self).spec_initial_state() == old(self).spec_initial_state(),
    {
        self.state = ControllerState::Stopped;
        let fire = self.signal_armed;
        self.signal_armed = false;
        fire
    }

    /// Take the engine out, e.g. to initialize it.
    pub fn take_engine(&mut self) -> (r: Option<Engine<C>>)
        ensures
            r == old(self).spec_engine(),
            final(self).spec_engine() is None,
            final(self)@.state == old(self)@.state,
            final(self)@.signal_armed == old(self)@.signal_armed,
            final(self).spec_initial_state() == old(self).spec_initial_state(),
    {
        self.engine.take()
    }

    /// Give the engine back.
    pub fn return_engine(&mut self, engine: Engine<C>)
        ensures
            final(self).spec_engine() == Some(engine),
            final(self)@.state == old(self)@.state,
            final(self)@.signal_armed == old(self)@.signal_armed,
            final(self).spec_initial_state() == old(self).spec_initial_state(),
    {
        self.engine = Some(engine);
    }
}

/// The controller's model follows the engine it holds: it has an engine
/// exactly when `spec_engine` is present, and that engine is ready exactly
/// when it has been initialized.
pub proof fn lemma_view_follows_engine<C>(c: &Controller<C>)
    ensures
        c@.has_engine == c.spec_engine() is Some,
        c@.engine_ready == (c.spec_engine() is Some && c.spec_engine()->0.initialized()),
{
}

/// The language setting stored for a requested language: `None` (automatic
/// detection) for `auto`, the code otherwise.
pub fn language_setting(language: &str) -> (r: Option<String>)
    ensures
        language@ == "auto"@ ==> r is None,
        language@ != "auto"@ ==> r is Some && r->0@ == language@,
{
    if str_equal(language, "auto") {
        None
    } else {
        Some(language.to_owned())
    }
}

/// The active language reported for a language setting: `auto` when none.
pub fn active_language(setting: &Option<String>) -> (r: String)
    ensures
        setting is None ==> r@ == "auto"@,
        setting is Some ==> r@ == setting->0@,
{
    match setting {
        Some(lang) => lang.clone(),
        None => "auto".to_owned(),
    }
}

/// The lifecycle rules, followed through one run: a new controller rejects
/// `start_listening` while initializing; `mark_ready` moves it to `Paused`;
/// `start_listening` with an uninitialized engine fails with the state still
/// `Paused` and the engine kept; `stop_listening` from `Paused` succeeds and
/// changes nothing; `shutdown` always ends in `Stopped`, and of two calls only
/// the first fires the signal (`shutdown` returns whether it fires).
pub proof fn lemma_controller_lifecycle()
    ensures
        ControllerModel::fresh(false).start_result() == Err::<bool, ControllerError>(ControllerError::StillInitializing),
        ControllerModel::fresh(false).after_start() == ControllerModel::fresh(false),
        ({
            let ready = ControllerModel::fresh(false).after_mark_ready();
            let once = ready.after_shutdown();
            let twice = once.after_shutdown();
            &&& ready.state == ControllerState::Paused
            &&& ready.start_result() == Err::<bool, ControllerError>(ControllerError::EngineNotInitialized)
            &&& ready.after_start() == ready
            &&& ready.after_start().has_engine
            &&& ready.stop_result() == Ok::<StopOutcome, ControllerError>(StopOutcome::AlreadyPaused)
            &&& ready.after_stop() == ready
            &&& once.state == ControllerState::Stopped
            &&& twice.state == ControllerState::Stopped
            &&& ready.signal_armed
            &&& !once.signal_armed
        }),
        forall|m: ControllerModel| #![auto] m.after_shutdown().state == ControllerState::Stopped,
        forall|m: ControllerModel| #![auto] !m.after_shutdown().signal_armed,
{
}

} // verus!
