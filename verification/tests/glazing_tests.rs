use ratty::glazing::{
    BlinkState, CellStyle, ContextualError, CursorConfig, CursorRenderer, ErrorContext,
    ErrorReporter, ErrorSeverity, GlazingError, ThemeCollection,
};
use ratty::glazing::theme::ColorPalette;
use ratty::sash::Color;

// ========== Theme Tests ==========

#[test]
fn test_color_palettes() {
    let ansi_palette = ColorPalette::ansi_16();
    assert_eq!(ansi_palette.colors.len(), 16);
    assert_eq!(ansi_palette.name, "ANSI 16");

    let solarized_dark = ColorPalette::solarized_dark();
    assert_eq!(solarized_dark.colors.len(), 16);
    assert_eq!(solarized_dark.name, "Solarized Dark");

    let solarized_light = ColorPalette::solarized_light();
    assert_eq!(solarized_light.colors.len(), 16);
    assert_eq!(solarized_light.name, "Solarized Light");
}

#[test]
fn test_theme_collection() {
    let collection = ThemeCollection::new();
    let themes = collection.list_themes();

    assert!(!themes.is_empty());
    assert!(themes.contains(&"default".to_string()));
    assert!(themes.contains(&"solarized-dark".to_string()));
    assert!(themes.contains(&"solarized-light".to_string()));

    // Test theme retrieval
    let default_theme = collection.get_theme("default");
    assert!(default_theme.is_some());

    let nonexistent_theme = collection.get_theme("nonexistent");
    assert!(nonexistent_theme.is_none());
}

// ========== Configuration Tests ==========

#[test]
fn test_cursor_config() {
    let cursor_config = CursorConfig::default();
    assert!(cursor_config.enable_blinking);
    assert_eq!(cursor_config.blink_rate_ms, 500);
    assert_eq!(cursor_config.thickness, 1);
    assert!(cursor_config.color_override.is_none());
}

// ========== Renderer Tests ==========

#[test]
fn test_cursor_renderer_creation() {
    let config = CursorConfig::default();
    let renderer = CursorRenderer::new(&config);
    assert!(renderer.is_ok());
}

#[test]
fn test_blink_state() {
    let mut blink_state = BlinkState::new(100);

    // Initial state should be visible
    assert!(blink_state.is_visible());

    // Reaching the blink rate toggles visibility.
    assert!(!blink_state.update_visibility(150));
    assert!(blink_state.update_visibility(150));

    // Short of the rate, nothing toggles.
    assert!(blink_state.update_visibility(50));
}

#[test]
fn test_cell_style_equality() {
    let style1 = CellStyle {
        foreground: Color::from_rgb(255, 255, 255),
        background: Color::from_rgb(0, 0, 0),
        bold: true,
        italic: false,
        underline: false,
        strikethrough: false,
        reverse: false,
        dim: false,
    };

    let style2 = style1.clone();
    assert_eq!(style1, style2);

    let style3 = CellStyle {
        bold: false,
        ..style1.clone()
    };
    assert_ne!(style1, style3);
}

// ========== Error Tests ==========

#[test]
fn test_glazing_error_creation() {
    let error = GlazingError::rendering("Test rendering error");
    assert!(matches!(error, GlazingError::RenderingError(_)));
    assert!(error.is_recoverable());
    assert_eq!(error.severity(), ErrorSeverity::Warning);
}

#[test]
fn test_error_severity() {
    let warning_error = GlazingError::theme("Theme issue");
    assert_eq!(warning_error.severity(), ErrorSeverity::Warning);

    let fatal_error = GlazingError::memory("Out of memory");
    assert_eq!(fatal_error.severity(), ErrorSeverity::Fatal);

    let info_error = GlazingError::performance("Performance notice");
    assert_eq!(info_error.severity(), ErrorSeverity::Info);
}

#[test]
fn test_error_recovery_suggestions() {
    let rendering_error = GlazingError::rendering("Failed to draw");
    assert!(rendering_error.recovery_suggestion().is_some());

    let font_error = GlazingError::font("Font not found");
    assert!(font_error.recovery_suggestion().is_some());

    let parse_error = GlazingError::parse("Invalid data");
    assert!(parse_error.recovery_suggestion().is_none());
}

#[test]
fn test_error_context() {
    let context = ErrorContext::new(
        "render_frame".to_string(),
        "renderer".to_string(),
    );

    assert_eq!(context.operation, "render_frame");
    assert_eq!(context.component, "renderer");
    assert!(!context.thread_id.is_empty());
}

#[test]
fn test_error_reporter() {
    let mut reporter = ErrorReporter::new(10);

    let error = GlazingError::rendering("Test error");
    let context = ErrorContext::new("test".to_string(), "test".to_string());
    let contextual_error = ContextualError::new(error, context);

    reporter.report(contextual_error);

    let stats = reporter.statistics();
    assert_eq!(stats.total_errors, 1);
    assert_eq!(stats.unique_types, 1);

    let recent = reporter.recent_errors(5);
    assert_eq!(recent.len(), 1);
}

#[test]
fn test_error_reporter_bound() {
    let mut reporter = ErrorReporter::new(2);
    for i in 0..5 {
        let error = GlazingError::layout("overflowing layout");
        let context = ErrorContext::new(format!("op{}", i), "layout".to_string());
        reporter.report(ContextualError::new(error, context));
    }
    let stats = reporter.statistics();
    assert_eq!(stats.total_errors, 2);
    assert_eq!(stats.unique_types, 1);
    assert_eq!(reporter.recent_errors(10).len(), 2);
}
