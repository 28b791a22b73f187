use ratty::sash::PaneId;
use ratty::sill::{
    ClipboardConfig, ClipboardManager, CommandTarget, ContextualError, CoordinateMapper,
    ErrorContext, ErrorReporter, ErrorSeverity, EventStatistics, FocusManager, InputCommand,
    InputMode, MouseMode, MouseModeManager, Selection, SelectionBuffer, SelectionEngine,
    SelectionConfig, SelectionMode, SelectionPosition, SillError, SillEventType,
};

// ========== Selection Tests ==========

#[test]
fn test_selection_bounds() {
    let selection = Selection {
        start: SelectionPosition { row: 10, col: 5 },
        end: SelectionPosition { row: 8, col: 15 },
        mode: SelectionMode::Character,
        pane_id: Some(PaneId::new(1)),
        timestamp: 0,
        active: true,
    };

    let (start, end) = selection.bounds();
    assert_eq!(start, SelectionPosition { row: 8, col: 15 });
    assert_eq!(end, SelectionPosition { row: 10, col: 5 });
}

#[test]
fn test_selection_contains() {
    let selection = Selection {
        start: SelectionPosition { row: 5, col: 10 },
        end: SelectionPosition { row: 5, col: 20 },
        mode: SelectionMode::Character,
        pane_id: Some(PaneId::new(1)),
        timestamp: 0,
        active: true,
    };

    assert!(selection.contains(SelectionPosition { row: 5, col: 15 }));
    assert!(!selection.contains(SelectionPosition { row: 5, col: 25 }));
    assert!(!selection.contains(SelectionPosition { row: 6, col: 15 }));
}

#[test]
fn test_selection_lifecycle() {
    let config = SelectionConfig::default();
    let mut engine = SelectionEngine::new(&config).expect("engine");
    let start_pos = SelectionPosition { row: 5, col: 10 };
    let end_pos = SelectionPosition { row: 5, col: 20 };

    // Start selection
    assert!(engine.start_selection(start_pos, SelectionMode::Character, None).is_ok());
    assert!(engine.get_current_selection().is_some());

    // Update selection
    assert!(engine.update_selection(end_pos).is_ok());
    let selection = engine.get_current_selection().unwrap();
    assert_eq!(selection.end, end_pos);

    // End selection
    let ended_selection = engine.end_selection().unwrap();
    assert!(ended_selection.is_some());

    // Clear selection
    assert!(engine.clear_selection().is_ok());
    assert!(engine.get_current_selection().is_none());
}

#[test]
fn test_selection_update_without_start_fails() {
    let config = SelectionConfig::default();
    let mut engine = SelectionEngine::new(&config).expect("engine");
    let result = engine.update_selection(SelectionPosition { row: 1, col: 1 });
    assert!(matches!(result.unwrap_err(), SillError::NoSelection(_)));
}

#[test]
fn test_selection_history_bound() {
    let config = SelectionConfig::default();
    let mut engine = SelectionEngine::new(&config).expect("engine");
    for i in 0..3u16 {
        engine
            .start_selection(SelectionPosition { row: i, col: 0 }, SelectionMode::Character, None)
            .unwrap();
        engine.update_selection(SelectionPosition { row: i, col: 5 }).unwrap();
        engine.end_selection().unwrap();
    }
    assert_eq!(engine.get_selection_history().len(), 3);
    assert_eq!(engine.get_selection_count(), 3);
}

// ========== Error Handling Tests ==========

#[test]
fn test_error_creation() {
    let error = SillError::key_processing("Test error");
    assert!(matches!(error, SillError::KeyProcessing(_)));
    assert!(error.is_recoverable());
    assert_eq!(error.severity(), ErrorSeverity::Warning);
}

#[test]
fn tests_test_error_recovery_suggestions() {
    let error = SillError::clipboard_access("Permission denied");
    assert!(error.recovery_suggestion().is_some());

    let internal_error = SillError::internal("Critical failure");
    assert!(internal_error.recovery_suggestion().is_none());
}

#[test]
fn tests_test_error_reporter() {
    let mut reporter = ErrorReporter::new(5);
    let error = SillError::key_processing("Test error");
    let context = ErrorContext::new("test".to_string(), "keyboard".to_string());
    let contextual_error = ContextualError::new(error, context);

    reporter.report(contextual_error);

    let stats = reporter.statistics();
    assert_eq!(stats.total_errors, 1);
    assert_eq!(stats.unique_types, 1);

    let recent = reporter.recent_errors(10);
    assert_eq!(recent.len(), 1);
}

#[test]
fn test_error_severity_levels() {
    assert_eq!(SillError::platform("no display").severity(), ErrorSeverity::Fatal);
    assert!(!SillError::platform("no display").is_recoverable());
    assert_eq!(SillError::invalid_sequence("odd bytes").severity(), ErrorSeverity::Info);
    assert_eq!(SillError::routing("misrouted").severity(), ErrorSeverity::Error);
}

// ========== Event System Tests ==========

#[test]
fn test_event_statistics() {
    let mut stats = EventStatistics::new();

    stats.record_event(&SillEventType::KeyProcessed);
    stats.record_event(&SillEventType::MouseProcessed);
    stats.record_event(&SillEventType::KeyProcessed);

    assert_eq!(stats.total_events(), 3);
    assert_eq!(stats.event_count(SillEventType::KeyProcessed), 2);
    assert_eq!(stats.event_count(SillEventType::MouseProcessed), 1);
}

// ========== Clipboard Tests ==========

#[test]
fn test_selection_buffer_dedup_and_bound() {
    let mut buffer = SelectionBuffer::new(2);
    buffer.add_text("one".to_string());
    buffer.add_text("one".to_string()); // repeat of the latest entry is dropped
    buffer.add_text("".to_string()); // empty text is dropped
    assert_eq!(buffer.len(), 1);
    buffer.add_text("two".to_string());
    buffer.add_text("three".to_string()); // the oldest entry leaves
    assert_eq!(buffer.len(), 2);
    assert_eq!(buffer.get(0), Some(&"two".to_string()));
    assert_eq!(buffer.get_latest(), Some("three".to_string()));
}

#[test]
fn test_clipboard_manager_buffer_roundtrip() {
    let mut config = ClipboardConfig::default();
    config.use_system_clipboard = false;
    let mut manager = ClipboardManager::new(&config).expect("manager");

    // Nothing to paste yet.
    assert!(manager.get_text().is_err());

    manager.copy_to_buffer("hello\r\nworld\0!").expect("copy");
    // Nulls leave and the line ending folds into a line feed.
    assert_eq!(manager.get_text().unwrap(), "hello\nworld!");
    assert_eq!(manager.get_operation_count(), 3);
    assert!(manager.is_available());
}

// ========== Mouse Tests ==========

#[test]
fn test_coordinate_mapper() {
    let mapper = CoordinateMapper::new();
    // Pixel (40, 33) falls in cell column 5, row 2 with 8-by-16 cells.
    let pos = mapper.screen_to_terminal(40, 33).expect("position");
    assert_eq!(pos.col, 5);
    assert_eq!(pos.row, 2);
    // Negative coordinates are refused.
    assert!(mapper.screen_to_terminal(-1, 5).is_err());
    // Far coordinates clamp into the terminal.
    let far = mapper.screen_to_terminal(10_000, 10_000).expect("position");
    assert_eq!(far.col, 79);
    assert_eq!(far.row, 23);
    // Mapping back gives the cell's upper-left pixel.
    assert_eq!(mapper.terminal_to_screen(pos), (40, 32));
}

#[test]
fn test_mouse_mode_manager() {
    let mut manager = MouseModeManager::new();
    assert!(!manager.should_report_to_terminal());
    manager.set_mouse_mode(MouseMode::ButtonTracking);
    assert!(!manager.should_report_to_terminal()); // still normal input mode
    manager.set_input_mode(InputMode::Application);
    assert!(manager.should_report_to_terminal());
    manager.set_mouse_mode(MouseMode::Normal);
    assert!(!manager.should_report_to_terminal());
}

// ========== Command Tests ==========

#[test]
fn test_input_command_priorities() {
    let quit = InputCommand::Quit;
    let insert = InputCommand::InsertText { text: "x".to_string(), target: CommandTarget::ActivePane };
    let help = InputCommand::ShowHelp;
    assert_eq!(quit.priority(), 255);
    assert_eq!(insert.priority(), 200);
    assert_eq!(help.priority(), 40);
    assert!(insert.requires_focus());
    assert!(!help.requires_focus());
    assert_eq!(*insert.target(), CommandTarget::ActivePane);
    assert_eq!(*quit.target(), CommandTarget::Global);
}

#[test]
fn test_focus_manager_history() {
    let mut manager = FocusManager::new();
    assert!(manager.get_focus().is_none());
    manager.set_focus(Some(PaneId::new(1)));
    manager.set_focus(Some(PaneId::new(2)));
    assert_eq!(manager.get_focus(), Some(PaneId::new(2)));
    assert_eq!(manager.get_previous_focus(), Some(PaneId::new(1)));
}
