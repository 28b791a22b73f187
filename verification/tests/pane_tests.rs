use ratty::pane::{
    BlinkType, Cell, CellAttributes, ClearType, Cursor, CursorStyle, CursorVisibility, Line, Pane,
    PaneConfig, PaneProfile, BuiltinProfiles, PtyConfig, PtyFactory, PtyInterface, ScreenBuffer,
    ScrollbackBuffer, Terminal, TerminalMode, UnderlineType, VtCommand,
};
use ratty::pane::{ErrorCategory, PaneError};
use ratty::sash::{PaneId, Theme};

fn create_test_pane() -> Pane {
    let config = PaneConfig::default();
    Pane::new(PaneId::new(1), config).expect("Failed to create test pane")
}

// ========== Basic Pane Tests ==========

#[test]
fn test_pane_creation() {
    let pane = create_test_pane();
    assert_eq!(pane.id(), PaneId::new(1));
    assert!(!pane.is_active());
    assert!(!pane.is_modified());
    assert_eq!(pane.get_title(), "Terminal");
    assert_eq!(pane.get_size(), (80, 24));
}

#[test]
fn test_pane_active_state() {
    let mut pane = create_test_pane();
    assert!(!pane.is_active());

    pane.set_active(true);
    assert!(pane.is_active());

    pane.set_active(false);
    assert!(!pane.is_active());
}

#[test]
fn test_pane_title() {
    let mut pane = create_test_pane();
    assert_eq!(pane.get_title(), "Terminal");

    pane.set_title("Test Pane".to_string());
    assert_eq!(pane.get_title(), "Test Pane");
}

#[test]
fn test_pane_modified_state() {
    let mut pane = create_test_pane();
    assert!(!pane.is_modified());

    pane.set_modified(true);
    assert!(pane.is_modified());

    pane.set_modified(false);
    assert!(!pane.is_modified());
}

#[test]
fn test_pane_size() {
    let pane = create_test_pane();
    assert_eq!(pane.get_size(), (80, 24));
    assert_eq!(pane.size(), (80, 24));
}

#[test]
fn test_pane_resize() {
    let mut pane = create_test_pane();
    assert_eq!(pane.get_size(), (80, 24));

    pane.resize(30, 100).expect("Resize should succeed");
    assert_eq!(pane.get_size(), (100, 30));
}

#[test]
fn test_pane_resize_invalid() {
    let mut pane = create_test_pane();

    // Zero width
    assert!(pane.resize(24, 0).is_err());

    // Zero height
    assert!(pane.resize(0, 80).is_err());
}

// ========== Configuration Tests ==========

#[test]
fn test_pane_config_default() {
    let config = PaneConfig::default();
    assert_eq!(config.initial_size, (80, 24));
    assert_eq!(config.scrollback_lines, 10000);
    assert!(config.auto_wrap);
    assert!(config.cursor_blink);
    assert_eq!(config.default_title, "Terminal");
}

#[test]
fn test_pane_config_validation() {
    let mut config = PaneConfig::default();

    // Valid config should pass
    assert!(config.validate().is_ok());

    // Invalid size should fail
    config.initial_size = (5, 2); // Smaller than min_size (10, 3)
    assert!(config.validate().is_err());

    // Empty command should fail
    config.initial_size = (80, 24); // Reset to valid
    config.default_command = "".to_string();
    assert!(config.validate().is_err());

    // Large scrollback should fail
    config.default_command = "/bin/sh".to_string(); // Reset to valid
    config.scrollback_lines = 2_000_000; // Too large
    assert!(config.validate().is_err());
}

#[test]
fn test_pane_config_builder() {
    let config = PaneConfig::new()
        .with_size(100, 30)
        .with_command("zsh")
        .with_scrollback(20000)
        .with_title("Custom Terminal");

    assert_eq!(config.initial_size, (100, 30));
    assert_eq!(config.default_command, "zsh");
    assert_eq!(config.scrollback_lines, 20000);
    assert_eq!(config.default_title, "Custom Terminal");
}

// ========== Buffer Tests ==========

#[test]
fn test_screen_buffer_creation() {
    let buffer = ScreenBuffer::new(80, 24);
    assert_eq!(buffer.width, 80);
    assert_eq!(buffer.height, 24);
    assert_eq!(buffer.lines.len(), 24);

    for line in &buffer.lines {
        assert_eq!(line.cells.len(), 80);
    }
}

#[test]
fn test_screen_buffer_resize() {
    let mut buffer = ScreenBuffer::new(80, 24);

    buffer.resize(100, 30).expect("Resize should succeed");
    assert_eq!(buffer.width, 100);
    assert_eq!(buffer.height, 30);
    assert_eq!(buffer.lines.len(), 30);

    for line in &buffer.lines {
        assert_eq!(line.cells.len(), 100);
    }
}

#[test]
fn test_line_operations() {
    let mut line = Line::new(80);
    assert_eq!(line.cells.len(), 80);
    assert!(line.is_empty());

    // Write a character
    let attrs = CellAttributes::default();
    line.write_char(0, 'H', attrs.clone());
    line.write_char(1, 'i', attrs.clone());

    assert!(!line.is_empty());
    assert_eq!(line.text().chars().take(2).collect::<String>(), "Hi");
}

#[test]
fn test_scrollback_buffer() {
    let mut scrollback = ScrollbackBuffer::new(5); // Small buffer for testing
    assert_eq!(scrollback.len(), 0);
    assert!(scrollback.is_empty());

    // Add lines
    for i in 0..3 {
        let mut line = Line::new(10);
        line.write_char(0, char::from_digit(i, 10).unwrap(), CellAttributes::default());
        scrollback.push_line(line);
    }

    assert_eq!(scrollback.len(), 3);
    assert!(!scrollback.is_empty());

    // Add more lines to exceed capacity
    for i in 3..8 {
        let mut line = Line::new(10);
        line.write_char(0, char::from_digit(i, 10).unwrap(), CellAttributes::default());
        scrollback.push_line(line);
    }

    // Should be capped at max_lines (5)
    assert_eq!(scrollback.len(), 5);

    // First lines should have been removed
    if let Some(first_line) = scrollback.get_line(0) {
        assert_eq!(first_line.cells[0].character, '3'); // First preserved line
    }
}

// ========== Cursor Tests ==========

#[test]
fn test_cursor_creation() {
    let cursor = Cursor::new();
    assert_eq!(cursor.position.row, 0);
    assert_eq!(cursor.position.col, 0);
    assert_eq!(cursor.style, CursorStyle::Block);
    assert_eq!(cursor.visibility, CursorVisibility::Visible);
}

#[test]
fn test_cursor_movement() {
    let mut cursor = Cursor::new();
    let screen = ScreenBuffer::new(80, 24);

    // Test forward movement
    cursor.move_forward(5, &screen).expect("Move should succeed");
    assert_eq!(cursor.position.col, 5);

    // Test backward movement
    cursor.move_back(2).expect("Move should succeed");
    assert_eq!(cursor.position.col, 3);

    // Test down movement
    cursor.move_down(3, &screen).expect("Move should succeed");
    assert_eq!(cursor.position.row, 3);

    // Test up movement
    cursor.move_up(1, &screen).expect("Move should succeed");
    assert_eq!(cursor.position.row, 2);
}

#[test]
fn test_cursor_position_clamping() {
    let mut cursor = Cursor::new();
    let screen = ScreenBuffer::new(80, 24);

    // Test movement beyond boundaries
    cursor.move_forward(100, &screen).expect("Move should succeed");
    assert_eq!(cursor.position.col, 79); // Should be clamped to screen width - 1

    cursor.move_down(100, &screen).expect("Move should succeed");
    assert_eq!(cursor.position.row, 23); // Should be clamped to screen height - 1
}

#[test]
fn test_cursor_save_restore() {
    let mut cursor = Cursor::new();
    let screen = ScreenBuffer::new(80, 24);

    // Move cursor and save position
    cursor.move_forward(10, &screen).expect("Move should succeed");
    cursor.move_down(5, &screen).expect("Move should succeed");
    cursor.save_position();

    // Move cursor elsewhere
    cursor.move_forward(20, &screen).expect("Move should succeed");
    cursor.move_down(10, &screen).expect("Move should succeed");
    assert_eq!(cursor.position.col, 30);
    assert_eq!(cursor.position.row, 15);

    // Restore position
    cursor.restore_position(&screen).expect("Restore should succeed");
    assert_eq!(cursor.position.col, 10);
    assert_eq!(cursor.position.row, 5);
}

// ========== Terminal Tests ==========

#[test]
fn test_terminal_creation() {
    let terminal = Terminal::new().expect("Terminal creation should succeed");
    assert_eq!(terminal.current_mode(), TerminalMode::Normal);
}

#[test]
fn test_terminal_character_processing() {
    let mut terminal = Terminal::new().expect("Terminal creation should succeed");

    // Test printable character
    let command = terminal.process_byte(b'A').expect("Processing should succeed");
    assert!(command.is_some());

    if let Some(VtCommand::PrintChar(ch)) = command {
        assert_eq!(ch, 'A');
    } else {
        panic!("Expected PrintChar command");
    }
}

#[test]
fn test_terminal_control_sequences() {
    let mut terminal = Terminal::new().expect("Terminal creation should succeed");

    // Test bell (BEL)
    let command = terminal.process_byte(0x07).expect("Processing should succeed");
    assert!(matches!(command, Some(VtCommand::Bell)));

    // Test backspace
    let command = terminal.process_byte(0x08).expect("Processing should succeed");
    assert!(matches!(command, Some(VtCommand::Backspace)));

    // Test tab
    let command = terminal.process_byte(0x09).expect("Processing should succeed");
    assert!(matches!(command, Some(VtCommand::Tab)));

    // Test line feed
    let command = terminal.process_byte(0x0A).expect("Processing should succeed");
    assert!(matches!(command, Some(VtCommand::LineFeed)));

    // Test carriage return
    let command = terminal.process_byte(0x0D).expect("Processing should succeed");
    assert!(matches!(command, Some(VtCommand::CarriageReturn)));
}

// ========== Statistics Tests ==========

#[test]
fn test_pane_statistics() {
    let pane = create_test_pane();
    let stats = pane.get_statistics();

    assert_eq!(stats.bytes_received, 0);
    assert_eq!(stats.bytes_sent, 0);
    assert_eq!(stats.lines_processed, 0);
}

#[test]
fn test_pane_validation() {
    let pane = create_test_pane();
    assert!(pane.validate_state().is_ok());
}

// ========== PTY Tests ==========

#[test]
fn test_pty_factory() {
    let pty = PtyFactory::create();
    assert_eq!(pty.size(), (80, 24));
    assert!(!pty.is_alive());
    assert!(pty.pid().is_none());
}

#[test]
fn test_pty_config() {
    let config = PtyConfig::default();
    assert_eq!(config.initial_size, (80, 24));
    assert_eq!(config.scroll_buffer_size, 10000);

    let pty = PtyFactory::create_with_config(config);
    assert_eq!(pty.size(), (80, 24));
}

// ========== Search Tests ==========

#[test]
fn test_scrollback_search() {
    let mut scrollback = ScrollbackBuffer::new(100);

    // Add some test content
    let test_lines = vec!["hello world", "foo bar", "hello again"];
    for text in test_lines {
        let mut line = Line::new(text.len() as u16);
        for (i, ch) in text.chars().enumerate() {
            line.write_char(i as u16, ch, CellAttributes::default());
        }
        scrollback.push_line(line);
    }

    // Search for "hello"
    let matches = scrollback.search("hello", true);
    assert_eq!(matches.len(), 2);

    // Check match details
    assert_eq!(matches[0].line, 0);
    assert_eq!(matches[0].start_col, 0);
    assert_eq!(matches[0].end_col, 5);
    assert_eq!(matches[0].text, "hello");

    assert_eq!(matches[1].line, 2);
    assert_eq!(matches[1].start_col, 0);
    assert_eq!(matches[1].end_col, 5);
}

// ========== Theme Tests ==========

#[test]
fn test_theme_application() {
    let mut pane = create_test_pane();
    let theme = Theme::default();

    // Apply theme should not fail
    assert!(pane.apply_theme(&theme).is_ok());
}

// ========== Profile Tests ==========

#[test]
fn test_builtin_profiles() {
    let profiles = BuiltinProfiles::all();
    assert!(!profiles.is_empty());

    let default_profile = BuiltinProfiles::default();
    assert_eq!(default_profile.name, "default");
    assert_eq!(default_profile.config.initial_size, (80, 24));

    let dev_profile = BuiltinProfiles::development();
    assert_eq!(dev_profile.name, "development");
    assert_eq!(dev_profile.config.initial_size, (100, 30));
    assert_eq!(dev_profile.config.scrollback_lines, 50000);
}

#[test]
fn test_profile_creation() {
    let config = PaneConfig::default().with_size(120, 40);
    let profile = PaneProfile::new("test", config)
        .with_description("Test profile")
        .with_tag("test".to_string());

    assert_eq!(profile.name, "test");
    assert_eq!(profile.description, "Test profile");
    assert_eq!(profile.tags, vec!["test"]);
    assert_eq!(profile.config.initial_size, (120, 40));
}

// ========== Protocol Scenario Tests ==========

#[test]
fn test_printable_text_and_newline() {
    // Bytes "Hi\r\n" into a fresh 80-by-24 pane: the cursor ends at row 1,
    // column 0, and line 0's text begins with "Hi".
    let mut pane = create_test_pane();
    pane.process_output(b"Hi\r\n").expect("processing should succeed");

    let (col, row) = pane.get_cursor_position();
    assert_eq!(row, 1);
    assert_eq!(col, 0);

    let line = pane.get_line(0).expect("line 0 exists");
    assert!(line.text().starts_with("Hi"));
}

#[test]
fn test_clear_screen_sequence() {
    // A clear-screen sequence on a buffer with prior content leaves every
    // cell default and the dirty tracker reporting everything dirty.
    let mut pane = create_test_pane();
    pane.process_output(b"some earlier content\r\nmore content").expect("ok");
    pane.process_output(b"\x1b[2J").expect("ok");

    let screen = pane.get_screen_content();
    for line in &screen.lines {
        for cell in &line.cells {
            assert_eq!(*cell, Cell::default());
        }
    }
    assert!(screen.dirty_regions.is_all_dirty());
}

#[test]
fn test_line_feeds_scroll_into_scrollback() {
    // The first 23 line feeds only walk the cursor to the bottom row; the
    // 24th is the first to scroll, and every further one scrolls again.
    // The screen keeps its full height of blank lines throughout.
    let mut pane = create_test_pane();
    pane.process_output(&vec![b'\n'; 24]).expect("ok");

    assert_eq!(pane.get_scrollback().len(), 1);
    let screen = pane.get_screen_content();
    assert_eq!(screen.lines.len(), 24);
    for line in &screen.lines {
        assert!(line.is_empty());
    }

    pane.process_output(b"\n").expect("ok");
    assert_eq!(pane.get_scrollback().len(), 2);
    assert_eq!(pane.get_screen_content().lines.len(), 24);
}

#[test]
fn test_bold_attribute_applies_to_printed_cell() {
    // "\x1b[1mX\x1b[0mY": the cell holding X is bold, the cell holding Y is
    // not, because the reset cleared the current attributes.
    let mut pane = create_test_pane();
    pane.process_output(b"\x1b[1mX\x1b[0mY").expect("ok");

    let line = pane.get_line(0).expect("line 0 exists");
    assert_eq!(line.cells[0].character, 'X');
    assert!(line.cells[0].attributes.bold);
    assert_eq!(line.cells[1].character, 'Y');
    assert!(!line.cells[1].attributes.bold);
    assert_eq!(line.cells[1].attributes, CellAttributes::default());
}

#[test]
fn test_save_and_restore_cursor() {
    // Move, save, move again, restore: the cursor returns to the position
    // at the time of the save.
    let mut pane = create_test_pane();
    pane.process_output(b"\x1b[5;10H").expect("ok");
    let saved = pane.get_cursor_position();
    pane.process_output(b"\x1b7").expect("ok");
    pane.process_output(b"\x1b[20;40H").expect("ok");
    assert_ne!(pane.get_cursor_position(), saved);
    pane.process_output(b"\x1b8").expect("ok");
    assert_eq!(pane.get_cursor_position(), saved);
}

#[test]
fn test_arbitrary_bytes_never_fail() {
    // Every byte value, in every order tried here, processes without an
    // error: malformed input is dropped, not errored.
    let mut pane = create_test_pane();
    let mut junk: Vec<u8> = Vec::new();
    for round in 0..4u16 {
        for b in 0..=255u8 {
            junk.push(b.wrapping_add(round as u8).wrapping_mul(97));
        }
    }
    assert!(pane.process_output(&junk).is_ok());
    assert!(pane.process_output(&junk).is_ok());
    assert!(pane.validate_state().is_ok());

    let mut terminal = Terminal::new().expect("ok");
    for b in 0..=255u8 {
        assert!(terminal.process_byte(b).is_ok());
    }
    assert!(terminal.process_bytes(&junk).is_ok());
}

#[test]
fn test_short_print_run_moves_cursor_only() {
    // Printing five characters from column zero with auto-wrap on leaves
    // the cursor at (0, 5), the row unchanged.
    let mut pane = create_test_pane();
    pane.process_output(b"abcde").expect("ok");
    let (col, row) = pane.get_cursor_position();
    assert_eq!(row, 0);
    assert_eq!(col, 5);
}

#[test]
fn test_clear_screen_twice_is_identical() {
    // Clearing twice yields the same buffer as clearing once.
    let mut pane = create_test_pane();
    pane.process_output(b"content before the clears").expect("ok");
    pane.process_output(b"\x1b[2J").expect("ok");
    let once: Vec<String> = pane.get_screen_content().lines.iter().map(|l| l.text()).collect();
    let dirty_once = pane.get_screen_content().dirty_regions.is_all_dirty();
    let cursor_once = pane.get_cursor_position();
    pane.process_output(b"\x1b[2J").expect("ok");
    let twice: Vec<String> = pane.get_screen_content().lines.iter().map(|l| l.text()).collect();
    assert_eq!(once, twice);
    assert_eq!(dirty_once, pane.get_screen_content().dirty_regions.is_all_dirty());
    assert_eq!(cursor_once, pane.get_cursor_position());
}

#[test]
fn test_resize_postcondition() {
    // After any resize to positive sizes, the height, width and every
    // line's cell count match the new size.
    let mut pane = create_test_pane();
    pane.process_output(b"keep this content").expect("ok");
    for (rows, cols) in [(10u16, 40u16), (50, 132), (1, 1), (24, 80)] {
        pane.resize(rows, cols).expect("resize should succeed");
        let screen = pane.get_screen_content();
        assert_eq!(screen.height, rows);
        assert_eq!(screen.width, cols);
        assert_eq!(screen.lines.len(), rows as usize);
        for line in &screen.lines {
            assert_eq!(line.cells.len(), cols as usize);
        }
    }
}

#[test]
fn test_scrollback_growth_is_bounded() {
    // From the bottom row, k line feeds grow the scrollback by exactly
    // min(k, capacity).
    let config = PaneConfig::default().with_scrollback(3);
    let mut pane = Pane::new(PaneId::new(7), config).expect("ok");
    // 23 feeds reach the bottom without scrolling.
    pane.process_output(&vec![b'\n'; 23]).expect("ok");
    assert_eq!(pane.get_scrollback().len(), 0);
    // Each further feed scrolls once, capped at the capacity of 3.
    for expected in [1usize, 2, 3, 3, 3] {
        pane.process_output(b"\n").expect("ok");
        assert_eq!(pane.get_scrollback().len(), expected);
        assert_eq!(pane.get_screen_content().lines.len(), 24);
    }
}

#[test]
fn test_unknown_csi_is_dropped() {
    // An unrecognized CSI final byte produces no command and changes no
    // content.
    let mut terminal = Terminal::new().expect("ok");
    let commands = terminal.process_bytes(b"\x1b[99q").expect("ok");
    assert!(commands.is_empty());
}

#[test]
fn test_csi_parameters_parse_exactly() {
    // Parameters split on the separator, empty fields read as zero, and
    // each count defaults to one when absent.
    let mut terminal = Terminal::new().expect("ok");
    let commands = terminal.process_bytes(b"\x1b[12A\x1b[A\x1b[3;7H\x1b[;5H").expect("ok");
    assert_eq!(commands.len(), 4);
    assert!(matches!(commands[0], VtCommand::CursorUp(12)));
    assert!(matches!(commands[1], VtCommand::CursorUp(1)));
    assert!(matches!(commands[2], VtCommand::CursorPosition(3, 7)));
    assert!(matches!(commands[3], VtCommand::CursorPosition(0, 5)));
}

#[test]
fn test_sgr_parameters_accumulate() {
    // Graphic rendition parameters apply in order over one sequence.
    let mut terminal = Terminal::new().expect("ok");
    let commands = terminal.process_bytes(b"\x1b[1;4;9m").expect("ok");
    assert_eq!(commands.len(), 1);
    match &commands[0] {
        VtCommand::SetGraphicsRendition(params) => assert_eq!(params, &vec![1u8, 4, 9]),
        other => panic!("unexpected command {:?}", other),
    }
}

#[test]
fn test_underline_and_blink_attributes() {
    let mut pane = create_test_pane();
    pane.process_output(b"\x1b[4;5mU\x1b[24;25mN").expect("ok");
    let line = pane.get_line(0).expect("line 0 exists");
    assert_eq!(line.cells[0].attributes.underline, UnderlineType::Single);
    assert_eq!(line.cells[0].attributes.blink, BlinkType::Slow);
    assert_eq!(line.cells[1].attributes.underline, UnderlineType::NoUnderline);
    assert_eq!(line.cells[1].attributes.blink, BlinkType::NoBlink);
}

#[test]
fn test_clear_line_variants() {
    let mut pane = create_test_pane();
    pane.process_output(b"abcdef").expect("ok");
    // Move to column 3 (one-based 4) and clear to the end of the line.
    pane.process_output(b"\x1b[1;4H\x1b[K").expect("ok");
    let text = pane.get_line(0).expect("line 0").text();
    assert!(text.starts_with("abc "));
    // Clear to the beginning: columns up to the cursor become blank.
    pane.process_output(b"\x1b[1;2H\x1b[1K").expect("ok");
    let text = pane.get_line(0).expect("line 0").text();
    assert!(text.starts_with("  c"));
}

#[test]
fn test_tab_and_backspace_movement() {
    let mut pane = create_test_pane();
    pane.process_output(b"\t").expect("ok");
    assert_eq!(pane.get_cursor_position().0, 8);
    pane.process_output(b"\x08").expect("ok");
    assert_eq!(pane.get_cursor_position().0, 7);
}

#[test]
fn test_pane_error_categories() {
    let e = PaneError::parse("bad sequence");
    assert!(e.is_recoverable());
    assert_eq!(e.category(), ErrorCategory::Terminal);
    let e = PaneError::InvalidCursorPosition(99, 3);
    assert_eq!(e.category(), ErrorCategory::Terminal);
    let e = PaneError::config("bad config");
    assert_eq!(e.category(), ErrorCategory::Configuration);
    assert_eq!(ErrorCategory::Terminal.name(), "Terminal Emulation");
    let e = PaneError::InternalError("broken".to_string());
    assert!(!e.is_recoverable());
    assert_eq!(e.category(), ErrorCategory::Internal);
}

#[test]
fn test_wide_search_matches_overlap() {
    let mut scrollback = ScrollbackBuffer::new(10);
    let mut line = Line::new(5);
    for (i, ch) in "aaaa ".chars().enumerate() {
        line.write_char(i as u16, ch, CellAttributes::default());
    }
    scrollback.push_line(line);
    let matches = scrollback.search("aa", true);
    assert_eq!(matches.len(), 3);
    assert_eq!(matches[0].start_col, 0);
    assert_eq!(matches[1].start_col, 1);
    assert_eq!(matches[2].start_col, 2);
}

#[test]
fn test_case_insensitive_search() {
    let mut scrollback = ScrollbackBuffer::new(10);
    let mut line = Line::new(6);
    for (i, ch) in "HeLLo ".chars().enumerate() {
        line.write_char(i as u16, ch, CellAttributes::default());
    }
    scrollback.push_line(line);
    assert_eq!(scrollback.search("hello", false).len(), 1);
    assert_eq!(scrollback.search("hello", true).len(), 0);
}
