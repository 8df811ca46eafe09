use key_monitor::logger::level::LevelFilter;
use key_monitor::keyboard_controller::stop_keyboard_input;
use key_monitor::window::{window_title, MyApp, UiAction, UiEvent};

fn app() -> MyApp {
    MyApp::new(vec!["[ERROR] e".to_string(), "[INFO] i".to_string()])
}

#[test]
fn new_app_state() {
    let app = app();
    assert_eq!(app.log_view().log_level, LevelFilter::Info);
    assert_eq!(app.previous_log_level(), LevelFilter::Info);
    assert!(!app.is_key_press_running());
    assert!(!app.show_trace_warning());
    assert_eq!(app.log_view().logs.len(), 2);
}

#[test]
fn clear_logs_event() {
    let mut app = app();
    assert!(matches!(app.handle_event(UiEvent::ClearLogs), UiAction::Nothing));
    assert!(app.log_view().logs.is_empty());
    assert_eq!(app.log_view().log_level, LevelFilter::Info);
}

#[test]
fn start_then_stop_key_press() {
    let mut app = app();
    assert_eq!(app.key_press_button_label(), "Start Key Press");
    assert_eq!(app.key_press_button_color(), (50, 160, 50));
    assert!(matches!(app.handle_event(UiEvent::StartKeyPress), UiAction::StartKeyboardInput));
    assert!(!app.is_key_press_running());
    let (tx, rx) = std::sync::mpsc::channel::<()>();
    app.key_press_started(tx);
    assert!(app.is_key_press_running());
    assert_eq!(app.key_press_button_label(), "Stop Key Press");
    assert_eq!(app.key_press_button_color(), (200, 50, 50));
    assert!(matches!(app.handle_event(UiEvent::StartKeyPress), UiAction::Nothing));
    match app.handle_event(UiEvent::StopKeyPress) {
        UiAction::StopKeyboardInput(sender) => stop_keyboard_input(sender),
        other => panic!("expected a stop request, got {:?}", other),
    }
    assert!(!app.is_key_press_running());
    assert_eq!(rx.try_recv(), Ok(()));
    assert!(matches!(app.handle_event(UiEvent::StopKeyPress), UiAction::Nothing));
}

#[test]
fn stop_without_thread_does_nothing() {
    let mut app = app();
    assert!(matches!(app.handle_event(UiEvent::StopKeyPress), UiAction::Nothing));
    assert!(!app.is_key_press_running());
}

#[test]
fn selecting_other_levels_applies_at_once() {
    let mut app = app();
    app.handle_event(UiEvent::SelectLevel(LevelFilter::Debug));
    assert_eq!(app.log_view().log_level, LevelFilter::Debug);
    assert!(!app.show_trace_warning());
    app.handle_event(UiEvent::SelectLevel(LevelFilter::Error));
    assert_eq!(app.log_view().log_level, LevelFilter::Error);
}

#[test]
fn trace_needs_confirmation() {
    let mut app = app();
    app.handle_event(UiEvent::SelectLevel(LevelFilter::Warn));
    app.handle_event(UiEvent::SelectLevel(LevelFilter::Trace));
    assert!(app.show_trace_warning());
    assert_eq!(app.log_view().log_level, LevelFilter::Warn);
    assert_eq!(app.previous_log_level(), LevelFilter::Warn);
    app.handle_event(UiEvent::ConfirmTrace);
    assert_eq!(app.log_view().log_level, LevelFilter::Trace);
    assert!(!app.show_trace_warning());
}

#[test]
fn trace_cancel_restores_previous() {
    let mut app = app();
    app.handle_event(UiEvent::SelectLevel(LevelFilter::Trace));
    app.handle_event(UiEvent::CancelTrace);
    assert_eq!(app.log_view().log_level, LevelFilter::Info);
    assert!(!app.show_trace_warning());
}

#[test]
fn warning_answers_without_warning_do_nothing() {
    let mut app = app();
    app.handle_event(UiEvent::ConfirmTrace);
    assert_eq!(app.log_view().log_level, LevelFilter::Info);
    app.handle_event(UiEvent::CancelTrace);
    assert_eq!(app.log_view().log_level, LevelFilter::Info);
}

#[test]
fn replace_logs_swaps() {
    let mut app = app();
    let old = app.replace_logs(vec!["x".to_string()]);
    assert_eq!(old.len(), 2);
    assert_eq!(app.log_view().logs, vec!["x".to_string()]);
}

#[test]
fn title() {
    assert_eq!(window_title("0.1.2"), "Log Viewer v0.1.2");
}

#[test]
fn stop_hands_back_the_started_sender() {
    let mut app = app();
    let (tx, rx) = std::sync::mpsc::channel::<()>();
    app.key_press_started(tx);
    let sender = match app.handle_event(UiEvent::StopKeyPress) {
        UiAction::StopKeyboardInput(sender) => sender,
        other => panic!("expected a stop request, got {:?}", other),
    };
    sender.send(()).unwrap();
    assert_eq!(rx.try_recv(), Ok(()));
}

#[test]
fn trace_only_after_yes_over_a_session() {
    let mut app = app();
    for event in [
        UiEvent::SelectLevel(LevelFilter::Trace),
        UiEvent::CancelTrace,
        UiEvent::SelectLevel(LevelFilter::Debug),
        UiEvent::SelectLevel(LevelFilter::Trace),
        UiEvent::SelectLevel(LevelFilter::Error),
        UiEvent::CancelTrace,
        UiEvent::ClearLogs,
    ] {
        app.handle_event(event);
        assert_ne!(app.log_view().log_level, LevelFilter::Trace);
        assert_ne!(app.log_view().log_level, LevelFilter::Off);
    }
    assert_eq!(app.log_view().log_level, LevelFilter::Debug);
}
