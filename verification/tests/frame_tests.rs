use std::collections::HashMap;
use ratty::frame::config::{Key, KeyCombination, KeyModifier};
use ratty::frame::errors::{ConfigError, ContextualError, ErrorContext, ErrorSeverity, FrameError};
use ratty::frame::SashId;

#[test]
fn test_error_conversion() {
    let config_error = ConfigError::LoadFailed("test".to_string());
    let frame_error: FrameError = config_error.into();

    match frame_error {
        FrameError::ConfigurationError(_) => {}, // Expected
        _ => panic!("Unexpected error type"),
    }
}

#[test]
fn test_user_friendly_error() {
    let error = FrameError::InitializationFailed("test".to_string());
    let message = error.user_message();

    assert!(!message.is_empty());
    assert!(error.error_code().is_some());
    assert_eq!(error.severity(), ErrorSeverity::Critical);
}

#[test]
fn errors_test_error_context() {
    let context = ErrorContext::new("window_creation", "frame")
        .with_info("window_id", "123")
        .with_info("config", "default");

    assert_eq!(context.operation, "window_creation");
    assert_eq!(context.component, "frame");
    assert_eq!(context.additional_info.len(), 2);
}

#[test]
fn test_contextual_error() {
    let error = FrameError::WindowNotFound(SashId::new(1));
    let context = ErrorContext::new("focus_window", "frame");
    let contextual = ContextualError { error, context };

    let error_string = contextual.message();
    assert!(error_string.contains("focus_window"));
    assert!(error_string.contains("frame"));
}

#[test]
fn test_key_combination() {
    let combo = KeyCombination {
        modifiers: vec![KeyModifier::Ctrl, KeyModifier::Shift],
        key: Key::Char('n'),
    };

    // Test that we can use it as a HashMap key
    let mut map = HashMap::new();
    map.insert(combo.clone(), "test");
    assert_eq!(map.get(&combo), Some(&"test"));
}

#[test]
fn test_error_codes_are_distinct() {
    let errors = [
        FrameError::InitializationFailed(String::new()),
        FrameError::WindowNotFound(SashId::new(1)),
        FrameError::InvalidWindowState(String::new()),
        FrameError::CommandFailed(String::new()),
        FrameError::ShutdownError(String::new()),
        FrameError::ResourceError(String::new()),
        FrameError::StateError(String::new()),
        FrameError::Io(String::new()),
        FrameError::ThreadError(String::new()),
        FrameError::TimeoutError(String::new()),
    ];
    let mut codes: Vec<u32> = errors.iter().map(|e| e.error_code().unwrap()).collect();
    codes.sort();
    codes.dedup();
    assert_eq!(codes.len(), errors.len());
}
