use ratty::sash::{Color, NewTabPosition, PaneId, Tab, TabConfig, TabManager, Theme};

#[test]
fn test_pane_id() {
    let id1 = PaneId::new(42);
    let id2 = PaneId::new(42);
    let id3 = PaneId::new(43);

    assert_eq!(id1, id2);
    assert_ne!(id1, id3);
    assert_eq!(id1.as_u64(), 42);
}

#[test]
fn test_tab_creation() {
    let tab = Tab::new(PaneId::new(1), "Test Tab".to_string());
    assert_eq!(tab.pane_id, PaneId::new(1));
    assert_eq!(tab.title, "Test Tab");
    assert!(tab.closable);
    assert!(!tab.modified);
}

#[test]
fn test_tab_manager() {
    let mut manager = TabManager::new(TabConfig::default());

    // Initial state
    assert_eq!(manager.tab_count(), 0);
    assert!(manager.active_tab_index().is_none());
    assert!(manager.get_active_pane().is_none());

    // Add tabs
    let idx1 = manager.add_tab(PaneId::new(1), "Tab 1".to_string()).unwrap();
    assert_eq!(idx1, 0);
    assert_eq!(manager.tab_count(), 1);
    assert_eq!(manager.active_tab_index(), Some(0));

    let _idx2 = manager.add_tab(PaneId::new(2), "Tab 2".to_string()).unwrap();
    assert_eq!(manager.tab_count(), 2);

    // Navigate tabs
    assert!(manager.next_tab().is_ok());
    assert_eq!(manager.active_tab_index(), Some(1));

    assert!(manager.previous_tab().is_ok());
    assert_eq!(manager.active_tab_index(), Some(0));
}

#[test]
fn test_tab_manager_remove() {
    let mut config = TabConfig::default();
    config.allow_no_tabs = true;
    config.new_tab_position = NewTabPosition::End; // Use End for predictable order
    let mut manager = TabManager::new(config);

    manager.add_tab(PaneId::new(1), "Tab 1".to_string()).unwrap();
    manager.add_tab(PaneId::new(2), "Tab 2".to_string()).unwrap();
    manager.add_tab(PaneId::new(3), "Tab 3".to_string()).unwrap();

    // Verify initial order: [1, 2, 3]
    let tabs = manager.tabs();
    assert_eq!(tabs[0].pane_id, PaneId::new(1));
    assert_eq!(tabs[1].pane_id, PaneId::new(2));
    assert_eq!(tabs[2].pane_id, PaneId::new(3));

    // Remove middle tab (index 1, which is PaneId(2))
    let removed = manager.remove_tab(1).unwrap();
    assert_eq!(removed, PaneId::new(2));
    assert_eq!(manager.tab_count(), 2);

    // Remove last tab (now index 1, which is PaneId(3))
    let removed = manager.remove_tab(1).unwrap();
    assert_eq!(removed, PaneId::new(3));
    assert_eq!(manager.tab_count(), 1);
}

#[test]
fn test_tab_manager_move() {
    let mut config = TabConfig::default();
    config.new_tab_position = NewTabPosition::End; // Use End for predictable order
    let mut manager = TabManager::new(config);

    manager.add_tab(PaneId::new(1), "Tab 1".to_string()).unwrap();
    manager.add_tab(PaneId::new(2), "Tab 2".to_string()).unwrap();
    manager.add_tab(PaneId::new(3), "Tab 3".to_string()).unwrap();

    // Verify initial order: [1, 2, 3]
    let tabs = manager.tabs();
    assert_eq!(tabs[0].pane_id, PaneId::new(1));
    assert_eq!(tabs[1].pane_id, PaneId::new(2));
    assert_eq!(tabs[2].pane_id, PaneId::new(3));

    // Move tab from index 0 to index 2 (move PaneId(1) to position 2)
    assert!(manager.move_tab(0, 2).is_ok());

    // Verify new order: [2, 1, 3] (inserted at position 2-1=1 after removal)
    let tabs = manager.tabs();
    assert_eq!(tabs[0].pane_id, PaneId::new(2));
    assert_eq!(tabs[1].pane_id, PaneId::new(1));
    assert_eq!(tabs[2].pane_id, PaneId::new(3));
}

#[test]
fn test_theme_creation() {
    let theme = Theme::new("test".to_string());
    assert_eq!(theme.name, "test");
    assert!(theme.validate().is_ok());
}

#[test]
fn test_theme_validation() {
    let mut theme = Theme::default();

    // Valid theme
    assert!(theme.validate().is_ok());

    // Invalid font size
    theme.fonts.size = 0;
    assert!(theme.validate().is_err());

    // Invalid spacing
    theme.fonts.size = 12;
    theme.spacing.tab_height = 0;
    assert!(theme.validate().is_err());
}

#[test]
fn test_color_creation() {
    let color1 = Color::from_rgb(255, 128, 0);
    assert_eq!(color1.r, 255);
    assert_eq!(color1.g, 128);
    assert_eq!(color1.b, 0);
    assert_eq!(color1.a, 255);

    let color2 = Color::from_rgba(255, 128, 0, 128);
    assert_eq!(color2.a, 128);
}

#[test]
fn test_color_hex() {
    // RGB hex
    let color = Color::from_hex("#FF8000").unwrap();
    assert_eq!(color.r, 255);
    assert_eq!(color.g, 128);
    assert_eq!(color.b, 0);
    assert_eq!(color.a, 255);

    // RGBA hex
    let color = Color::from_hex("#FF800080").unwrap();
    assert_eq!(color.r, 255);
    assert_eq!(color.g, 128);
    assert_eq!(color.b, 0);
    assert_eq!(color.a, 128);

    // Without the leading marker, lower case
    let color = Color::from_hex("00ff7f").unwrap();
    assert_eq!((color.r, color.g, color.b, color.a), (0, 255, 127, 255));

    // Wrong lengths and stray characters are refused
    assert!(Color::from_hex("#FFF").is_err());
    assert!(Color::from_hex("#GG8000").is_err());
}

#[test]
fn test_color_to_hex() {
    assert_eq!(Color::from_rgb(255, 128, 0).to_hex(), "#FF8000");
    assert_eq!(Color::from_rgba(255, 128, 0, 128).to_hex(), "#FF800080");
    assert_eq!(Color::from_rgb(0, 0, 0).to_hex(), "#000000");
}
