use third_person::window::cursor::{lock_cursor_position, Cursor};

#[test]
fn cursor_starts_unlocked_and_inverts() {
    let mut c = Cursor::default();
    assert!(!c.locked());
    assert!(!lock_cursor_position(&c));
    let o = c.invert_lock();
    assert!(o.locked);
    assert!(!o.visible);
    assert!(lock_cursor_position(&c));
    let o = c.invert_lock();
    assert!(!o.locked);
    assert!(o.visible);
}
