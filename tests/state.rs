use voice_controllm::controller::ControllerState;
use voice_controllm::state::{
    decimal_string, download_percent, eq_ignore_ascii_case, language_entries, toggle_command, AppEvent, AppState, Command,
    LanguageInfo, LanguageSelection, MenuReaction, MenuState,
};

#[test]
fn test_status_text() {
    assert_eq!(AppState::Listening.status_text(), "Listening");
    assert_eq!(AppState::Paused.status_text(), "Paused");
    assert_eq!(AppState::Disconnected.status_text(), "Disconnected");
}

#[test]
fn test_status_text_with_language() {
    let auto = LanguageSelection::Auto;
    let en = LanguageSelection::Fixed("en".to_string());

    assert_eq!(
        AppState::Listening.status_text_with_language(&en),
        "Listening (en)"
    );
    assert_eq!(
        AppState::Paused.status_text_with_language(&auto),
        "Paused (auto)"
    );
    assert_eq!(
        AppState::Disconnected.status_text_with_language(&en),
        "Disconnected"
    );
}

#[test]
fn test_language_selection_matches_code() {
    let auto = LanguageSelection::Auto;
    assert!(auto.matches_code("auto"));
    assert!(auto.matches_code("AUTO"));
    assert!(!auto.matches_code("en"));

    let en = LanguageSelection::Fixed("en".to_string());
    assert!(en.matches_code("en"));
    assert!(en.matches_code("EN"));
    assert!(!en.matches_code("auto"));
}

#[test]
fn test_toggle_visibility() {
    assert!(AppState::Listening.has_toggle());
    assert!(AppState::Paused.has_toggle());
    assert!(!AppState::Disconnected.has_toggle());
    assert!(
        !AppState::Initializing {
            message: String::new()
        }
        .has_toggle()
    );
    assert!(!AppState::Error(String::new()).has_toggle());
}

#[test]
fn test_toggle_labels() {
    assert_eq!(AppState::Listening.toggle_label(), "Pause Listening");
    assert_eq!(AppState::Paused.toggle_label(), "Start Listening");
}

#[test]
fn toggle_label_empty_without_toggle() {
    assert_eq!(AppState::Disconnected.toggle_label(), "");
    assert_eq!(AppState::Error("boom".to_string()).toggle_label(), "");
}

#[test]
fn status_text_of_message_states() {
    let init = AppState::Initializing {
        message: "Downloading model... 45%".to_string(),
    };
    assert_eq!(init.status_text(), "Downloading model... 45%");
    let en = LanguageSelection::Fixed("en".to_string());
    assert_eq!(init.status_text_with_language(&en), "Downloading model... 45%");
    assert_eq!(AppState::Error("bad".to_string()).status_text(), "bad");
}

#[test]
fn daemon_state_mapping() {
    assert!(matches!(
        AppState::from_daemon_state(ControllerState::Listening),
        AppState::Listening
    ));
    assert!(matches!(
        AppState::from_daemon_state(ControllerState::Paused),
        AppState::Paused
    ));
    assert!(matches!(
        AppState::from_daemon_state(ControllerState::Stopped),
        AppState::Disconnected
    ));
    match AppState::from_daemon_state(ControllerState::Initializing) {
        AppState::Initializing { message } => assert_eq!(message, "Initializing..."),
        _ => panic!("expected Initializing"),
    }
}

#[test]
fn labels_and_case_folding() {
    assert_eq!(LanguageSelection::Auto.label(), "auto");
    assert_eq!(LanguageSelection::Fixed("cs".to_string()).label(), "cs");
    assert!(eq_ignore_ascii_case("Straße", "STRAßE"));
    assert!(!eq_ignore_ascii_case("en", "eng"));
    assert!(eq_ignore_ascii_case("", ""));
}

#[test]
fn language_menu_entries() {
    let info = LanguageInfo {
        active: LanguageSelection::Fixed("cs".to_string()),
        available: vec!["en".to_string(), "CS".to_string()],
    };
    let entries = language_entries(&info);
    assert_eq!(
        entries,
        vec![
            ("en".to_string(), false),
            ("CS".to_string(), true),
            ("auto".to_string(), false)
        ]
    );
    let with_auto = LanguageInfo {
        active: LanguageSelection::Auto,
        available: vec!["Auto".to_string(), "de".to_string()],
    };
    assert_eq!(
        language_entries(&with_auto),
        vec![("Auto".to_string(), true), ("de".to_string(), false)]
    );
    assert!(language_entries(&LanguageInfo::default()).is_empty());
}

#[test]
fn toggle_commands() {
    assert!(matches!(
        toggle_command(&AppState::Listening),
        Some(Command::StopListening)
    ));
    assert!(matches!(
        toggle_command(&AppState::Paused),
        Some(Command::StartListening)
    ));
    assert!(toggle_command(&AppState::Disconnected).is_none());
}

#[test]
fn menu_shutdown_is_sent_once() {
    let mut menu = MenuState::new();
    assert!(!menu.is_shutting_down());
    assert_eq!(
        menu.handle_app_event(AppEvent::ShutdownRequested),
        MenuReaction::SendShutdown
    );
    assert!(!menu.request_shutdown());
    assert_eq!(
        menu.handle_app_event(AppEvent::ShutdownRequested),
        MenuReaction::Wait
    );
    assert_eq!(
        menu.handle_app_event(AppEvent::StateChanged(AppState::Listening)),
        MenuReaction::Rebuild
    );
    assert!(matches!(menu.current_state(), AppState::Listening));
    assert_eq!(
        menu.handle_app_event(AppEvent::ShutdownComplete),
        MenuReaction::Exit
    );
}

#[test]
fn clicking_a_language_selects_it() {
    let mut menu = MenuState::new();
    match menu.select_language("de") {
        Command::SetLanguage(code) => assert_eq!(code, "de"),
        _ => panic!("expected SetLanguage"),
    }
    assert_eq!(menu.language().active.label(), "de");
    menu.select_language("AUTO");
    assert!(matches!(menu.language().active, LanguageSelection::Auto));
    assert!(matches!(
        LanguageSelection::from_code("Auto"),
        LanguageSelection::Auto
    ));
}

#[test]
fn progress_messages() {
    assert_eq!(
        AppState::downloading("ggml-base.bin", 45, 100).status_text(),
        "Downloading ggml-base.bin... 45%"
    );
    assert_eq!(
        AppState::downloading("silero_vad.onnx", 5, 0).status_text(),
        "Downloading silero_vad.onnx... 0%"
    );
    assert_eq!(
        AppState::loading("ggml-base.bin").status_text(),
        "Loading ggml-base.bin..."
    );
    assert!(!AppState::loading("x").has_toggle());
}

#[test]
fn percent_and_decimal() {
    assert_eq!(download_percent(1, 3), 33);
    assert_eq!(download_percent(3, 3), 100);
    assert_eq!(download_percent(7, 0), 0);
    assert_eq!(decimal_string(0), "0");
    assert_eq!(decimal_string(7), "7");
    assert_eq!(decimal_string(1234567890), "1234567890");
    assert_eq!(decimal_string(u64::MAX), u64::MAX.to_string());
}
