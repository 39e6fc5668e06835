use std::path::PathBuf;
use voice_controllm::config::{InitialState, ModelConfig};
use voice_controllm::controller::{
    active_language, language_setting, Controller, ControllerError, ControllerState, StartOutcome,
    StopOutcome,
};
use voice_controllm::engine::Engine;
use voice_controllm::models::ModelManager;

fn create_controller_with_initial_state(initial_state: InitialState) -> Controller<u8> {
    let engine = Engine::with_model_manager(
        ModelConfig::default(),
        ModelManager::with_dir(PathBuf::from("/tmp/vcm-models")),
    );
    Controller::new(engine, initial_state)
}

fn create_controller() -> Controller<u8> {
    create_controller_with_initial_state(InitialState::Paused)
}

#[test]
fn test_initial_state_is_initializing() {
    let controller = create_controller();
    assert_eq!(controller.state(), ControllerState::Initializing);
}

#[test]
fn test_mark_ready_transitions_to_paused() {
    let mut controller = create_controller();
    assert_eq!(controller.state(), ControllerState::Initializing);
    assert!(controller.mark_ready());
    assert_eq!(controller.state(), ControllerState::Paused);
}

#[test]
fn test_start_listening_fails_during_initializing() {
    let mut controller = create_controller();
    let result = controller.start_listening();
    assert!(result.is_err());
}

#[test]
fn test_start_listening_requires_engine() {
    let mut controller = create_controller();
    controller.mark_ready();
    let result = controller.start_listening();
    assert!(result.is_err());
}

#[test]
fn test_stop_listening_from_paused_is_noop() {
    let mut controller = create_controller();
    controller.mark_ready();
    let result = controller.stop_listening();
    assert!(result.is_ok());
    assert_eq!(controller.state(), ControllerState::Paused);
}

#[test]
fn test_shutdown_sends_signal() {
    let mut controller = create_controller();
    assert!(controller.shutdown());
    assert_eq!(controller.state(), ControllerState::Stopped);
}

#[test]
fn test_mark_ready_with_listening_initial_state_falls_back_to_paused() {
    let mut controller = create_controller_with_initial_state(InitialState::Listening);
    assert!(controller.mark_ready());
    assert!(controller.auto_start());
    assert!(controller.start_listening().is_err());
    assert_eq!(controller.state(), ControllerState::Paused);
}

#[test]
fn shutdown_signal_fires_once() {
    let mut controller = create_controller();
    controller.mark_ready();
    assert!(controller.shutdown());
    assert!(!controller.shutdown());
    assert_eq!(controller.state(), ControllerState::Stopped);
    assert!(matches!(
        controller.start_listening(),
        Err(ControllerError::Stopped)
    ));
    assert_eq!(controller.stop_listening(), Err(ControllerError::Stopped));
}

#[test]
fn uninitialized_engine_stays_with_controller() {
    let mut controller = create_controller();
    assert!(matches!(
        controller.start_listening(),
        Err(ControllerError::StillInitializing)
    ));
    controller.mark_ready();
    assert!(!controller.mark_ready());
    assert!(matches!(
        controller.start_listening(),
        Err(ControllerError::EngineNotInitialized)
    ));
    assert_eq!(controller.state(), ControllerState::Paused);
    let engine = controller.take_engine();
    assert!(engine.is_some());
    assert!(matches!(
        controller.start_listening(),
        Err(ControllerError::EngineUnavailable)
    ));
    controller.return_engine(engine.unwrap());
    assert!(controller.take_engine().is_some());
}

#[test]
fn listen_and_stop_cycle() {
    let mut controller = create_controller();
    let mut engine = controller.take_engine().unwrap();
    engine.install(1);
    controller.return_engine(engine);
    controller.mark_ready();
    let engine = match controller.start_listening() {
        Ok(StartOutcome::Spawn(e)) => e,
        _ => panic!("expected the engine to be handed out"),
    };
    assert_eq!(controller.state(), ControllerState::Listening);
    assert!(controller.take_engine().is_none());
    assert!(matches!(
        controller.start_listening(),
        Ok(StartOutcome::AlreadyListening)
    ));
    assert_eq!(controller.stop_listening(), Ok(StopOutcome::JoinTask));
    assert_eq!(controller.state(), ControllerState::Paused);
    controller.return_engine(engine);
    assert_eq!(controller.stop_listening(), Ok(StopOutcome::AlreadyPaused));
    assert!(matches!(
        controller.start_listening(),
        Ok(StartOutcome::Spawn(_))
    ));
}

#[test]
fn language_settings() {
    assert_eq!(language_setting("auto"), None);
    assert_eq!(language_setting("en"), Some("en".to_string()));
    assert_eq!(active_language(&None), "auto");
    assert_eq!(active_language(&Some("cs".to_string())), "cs");
    assert_eq!(
        ControllerError::StillInitializing.message(),
        "Daemon is still initializing"
    );
}

#[test]
fn engine_lost_when_paused_without_engine() {
    let mut controller = create_controller();
    let mut engine = controller.take_engine().unwrap();
    engine.install(1);
    controller.return_engine(engine);
    controller.mark_ready();
    assert!(!controller.engine_lost());
    let _running = controller.start_listening();
    assert!(!controller.engine_lost());
    controller.stop_listening().unwrap();
    // The task crashed: the engine never comes back.
    assert!(controller.engine_lost());
    assert!(matches!(
        controller.start_listening(),
        Err(ControllerError::EngineUnavailable)
    ));
}
