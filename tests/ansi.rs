use crossterm::AnsiScreenManager;

#[test]
fn new_manager_is_on_primary_screen() {
    let mut manager = AnsiScreenManager::new();
    assert!(!manager.is_alternate_screen);
    assert!(manager.flush().is_empty());
}

#[test]
fn toggle_twice_keeps_flag() {
    let mut manager = AnsiScreenManager::new();
    manager.toggle_is_alternate_screen(true);
    manager.toggle_is_alternate_screen(true);
    assert!(manager.is_alternate_screen);
    manager.toggle_is_alternate_screen(false);
    assert!(!manager.is_alternate_screen);
}

#[test]
fn toggle_writes_nothing() {
    let mut manager = AnsiScreenManager::new();
    assert_eq!(manager.write(b"ab"), 2);
    manager.toggle_is_alternate_screen(true);
    assert_eq!(manager.flush(), b"ab".to_vec());
}

#[test]
fn write_waits_for_flush() {
    let mut manager = AnsiScreenManager::new();
    assert_eq!(manager.write(b"\x1b[2J"), 4);
    assert_eq!(manager.write(b"x"), 1);
    assert_eq!(manager.flush(), b"\x1b[2Jx".to_vec());
    assert!(manager.flush().is_empty());
}

#[test]
fn string_write_flushes_at_once() {
    let mut manager = AnsiScreenManager::new();
    manager.write(b">");
    assert_eq!(manager.write_str("é"), vec![b'>', 0xc3, 0xa9]);
    assert!(manager.flush().is_empty());
    assert_eq!(manager.write_string(String::from("ok")), b"ok".to_vec());
}
