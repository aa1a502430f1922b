use eco_clipboard::delays::{
    get_content_size, get_paste_delay_ms, get_write_delay_ms, wants_file_size,
};
use eco_clipboard::keys;
use eco_clipboard::keys::{Key, KeyStep, VirtualKey};
use eco_clipboard::lock::{QuickPasteLock, QuickPasteLockGuard};

#[test]
fn write_delays_by_type_and_size() {
    for t in ["text", "code", "color", "markdown", "link", "path"] {
        assert_eq!(get_write_delay_ms(t, 0), 15);
        assert_eq!(get_write_delay_ms(t, 99), 15);
        assert_eq!(get_write_delay_ms(t, 100), 25);
        assert_eq!(get_write_delay_ms(t, 999), 25);
        assert_eq!(get_write_delay_ms(t, 1000), 40);
    }
    assert_eq!(get_write_delay_ms("image", 999_999), 40);
    assert_eq!(get_write_delay_ms("image", 1_000_000), 75);
    assert_eq!(get_write_delay_ms("image", 4_999_999), 75);
    assert_eq!(get_write_delay_ms("image", 5_000_000), 75);
    assert_eq!(get_write_delay_ms("image", 5_000_001), 150);
    for t in ["formatted", "html", "rtf"] {
        assert_eq!(get_write_delay_ms(t, 999), 25);
        assert_eq!(get_write_delay_ms(t, 1000), 35);
        assert_eq!(get_write_delay_ms(t, 4999), 35);
        assert_eq!(get_write_delay_ms(t, 5000), 50);
    }
    assert_eq!(get_write_delay_ms("files", 0), 40);
    assert_eq!(get_write_delay_ms("files", 9_000_000), 40);
    assert_eq!(get_write_delay_ms("", 5), 30);
    assert_eq!(get_write_delay_ms("Text", 5), 30);
}

#[test]
fn paste_delays_by_type_and_size() {
    for t in ["text", "code", "color", "markdown", "link", "path"] {
        assert_eq!(get_paste_delay_ms(t, 99), 20);
        assert_eq!(get_paste_delay_ms(t, 100), 25);
        assert_eq!(get_paste_delay_ms(t, 999), 25);
        assert_eq!(get_paste_delay_ms(t, 1000), 30);
    }
    assert_eq!(get_paste_delay_ms("image", 999_999), 40);
    assert_eq!(get_paste_delay_ms("image", 1_000_000), 50);
    assert_eq!(get_paste_delay_ms("image", 5_000_000), 60);
    for t in ["formatted", "html", "rtf", "files"] {
        assert_eq!(get_paste_delay_ms(t, 0), 40);
        assert_eq!(get_paste_delay_ms(t, 9_000_000), 40);
    }
    assert_eq!(get_paste_delay_ms("other", 0), 30);
}

#[test]
fn content_sizes() {
    assert_eq!(get_content_size("text", "héllo", None), 6);
    assert_eq!(get_content_size("text", "abc", Some(99)), 3);
    assert_eq!(get_content_size("image", "/p", Some(1234)), 1234);
    assert_eq!(get_content_size("image", "/p", None), 2);
    assert_eq!(get_content_size("files", "", Some(7)), 0);
    assert!(wants_file_size("image", "/p"));
    assert!(wants_file_size("files", "/p"));
    assert!(!wants_file_size("image", ""));
    assert!(!wants_file_size("text", "/p"));
}

#[test]
fn larger_contents_never_wait_less() {
    for t in ["text", "image", "formatted", "files", "x"] {
        let sizes = [0usize, 99, 100, 1000, 5000, 1_000_000, 5_000_000, 5_000_001];
        for pair in sizes.windows(2) {
            assert!(get_write_delay_ms(t, pair[0]) <= get_write_delay_ms(t, pair[1]));
            assert!(get_paste_delay_ms(t, pair[0]) <= get_paste_delay_ms(t, pair[1]));
        }
    }
}

#[test]
fn an_index_is_held_once() {
    let mut lock = QuickPasteLock::new();
    let guard = lock.try_acquire(3).unwrap();
    assert_eq!(guard.index(), 3);
    assert_eq!(guard, QuickPasteLockGuard::new(3));
    assert!(lock.try_acquire(3).is_none());
    assert!(lock.try_acquire(4).is_some());
    lock.release(3);
    assert!(!lock.is_held(3));
    assert!(lock.is_held(4));
    lock.release(9);
    assert!(lock.is_held(4));
    assert!(lock.try_acquire(3).is_some());
}

#[test]
fn keystrokes_of_a_paste() {
    assert_eq!(
        keys::paste(),
        vec![
            KeyStep::ReleaseModifiers,
            KeyStep::Press(Key::LShift),
            KeyStep::Click(Key::Insert),
            KeyStep::Release(Key::LShift),
            KeyStep::Wait(5),
        ]
    );
}

#[test]
fn keystrokes_of_a_paste_with_focus() {
    let without = keys::paste_with_focus(None);
    assert_eq!(
        without,
        vec![
            KeyStep::Wait(50),
            KeyStep::ReleaseModifiers,
            KeyStep::Wait(20),
            KeyStep::Press(Key::LShift),
            KeyStep::Wait(20),
            KeyStep::Click(Key::Insert),
            KeyStep::Wait(20),
            KeyStep::Release(Key::LShift),
            KeyStep::Wait(20),
        ]
    );
    let with = keys::paste_with_focus(Some(77));
    assert_eq!(with[0], KeyStep::RestoreFocus(77));
    assert_eq!(with[1..], without[..]);
}

#[test]
fn pressed_modifiers_are_released() {
    assert!(keys::is_pressed(-32768));
    assert!(keys::is_pressed(-1));
    assert!(!keys::is_pressed(0));
    assert!(!keys::is_pressed(1));
    assert!(!keys::is_pressed(32767));
    let keys_of = keys::modifier_keys();
    assert_eq!(keys_of.len(), 6);
    assert_eq!(keys_of[3], (VirtualKey::Menu, Key::Alt));
    assert_eq!(keys::release_all_modifier_keys(1, -32767), Some(Key::Shift));
    assert_eq!(keys::release_all_modifier_keys(5, -32768), Some(Key::RWin));
    assert_eq!(keys::release_all_modifier_keys(5, 1), None);
    assert_eq!(keys::release_all_modifier_keys(6, -32768), None);
}
