use devcomp::keycode::{KeyCode, KeyEvent};

#[test]
fn test_keycode_from_control_chars() {
    assert_eq!(KeyCode::from(8), KeyCode::Backspace);
    assert_eq!(KeyCode::from(9), KeyCode::Tab);
    assert_eq!(KeyCode::from(13), KeyCode::Enter);
    assert_eq!(KeyCode::from(27), KeyCode::Esc);
}

#[test]
fn test_keycode_from_printable_ascii() {
    assert_eq!(KeyCode::from(b'a'), KeyCode::Char('a'));
    assert_eq!(KeyCode::from(b'Z'), KeyCode::Char('Z'));
    assert_eq!(KeyCode::from(b'0'), KeyCode::Char('0'));
    assert_eq!(KeyCode::from(b'~'), KeyCode::Char('~'));
}

#[test]
fn test_keycode_from_special_keys() {
    assert_eq!(KeyCode::from(20), KeyCode::CapsLock);
    assert_eq!(KeyCode::from(144), KeyCode::NumLock);
    assert_eq!(KeyCode::from(145), KeyCode::ScrollLock);
    assert_eq!(KeyCode::from(19), KeyCode::Pause);
    assert_eq!(KeyCode::from(0), KeyCode::Null);
}

#[test]
fn test_keycode_from_invalid() {
    assert_eq!(KeyCode::from(255), KeyCode::Null);
    assert_eq!(KeyCode::from(200), KeyCode::Null);
}

#[test]
fn test_keycode_from_seq() {
    assert_eq!(KeyCode::from_xterm_seq(&[65]), KeyCode::Char('A'));
    assert_eq!(KeyCode::from_xterm_seq(&[27]), KeyCode::Esc);
    assert_eq!(KeyCode::from_xterm_seq(&[0]), KeyCode::Null);

    assert_eq!(KeyCode::from_xterm_seq(&[27, 91, 68]), KeyCode::Left);
    assert_eq!(KeyCode::from_xterm_seq(&[27, 91, 67]), KeyCode::Right);
    assert_eq!(KeyCode::from_xterm_seq(&[27, 91, 65]), KeyCode::Up);
    assert_eq!(KeyCode::from_xterm_seq(&[27, 91, 66]), KeyCode::Down);

    assert_eq!(KeyCode::from_xterm_seq(&[27, 91, 53, 126]), KeyCode::PageUp);
    assert_eq!(KeyCode::from_xterm_seq(&[27, 91, 54, 126]), KeyCode::PageDown);
    assert_eq!(KeyCode::from_xterm_seq(&[27, 91, 51, 126]), KeyCode::Delete);
    assert_eq!(KeyCode::from_xterm_seq(&[27, 91, 52, 126]), KeyCode::End);

    assert_eq!(KeyCode::from_xterm_seq(&[27, 91, 49, 56, 126]), KeyCode::F(7));
    assert_eq!(KeyCode::from_xterm_seq(&[27, 91, 49, 57, 126]), KeyCode::F(8));
}

#[test]
fn test_into_key_event() {
    let key_code = KeyCode::Char('a');
    let key_event = key_code.into_key_event();
    assert_eq!(key_event, KeyEvent::new(KeyCode::Char('a'), false));
}

#[test]
fn decoder_total_on_junk_sequences() {
    // Unrecognized sequences degrade to the null key: empty input,
    // stray escape prefixes and arbitrary bytes alike.
    assert_eq!(KeyCode::from_xterm_seq(&[]), KeyCode::Null);
    assert_eq!(KeyCode::from_xterm_seq(&[27, 91]), KeyCode::Null);
    assert_eq!(KeyCode::from_xterm_seq(&[27, 91, 90]), KeyCode::Null);
    assert_eq!(KeyCode::from_xterm_seq(&[255, 254, 253, 7]), KeyCode::Null);
    assert_eq!(KeyCode::from_xterm_seq(&[27, 91, 49, 54, 126]), KeyCode::Null);
    assert_eq!(KeyCode::from_xterm_seq(&[1, 2, 3, 4, 5, 6]), KeyCode::Null);
}

#[test]
fn control_bytes_become_ctrl_letters() {
    let ctrl_c = KeyCode::from(3).into_key_event();
    assert_eq!(ctrl_c, KeyEvent::new(KeyCode::Char('c'), true));
    let ctrl_d = KeyCode::from(4).into_key_event();
    assert_eq!(ctrl_d, KeyEvent::new(KeyCode::Char('d'), true));
    let ctrl_z = KeyCode::from(26).into_key_event();
    assert_eq!(ctrl_z, KeyEvent::new(KeyCode::Char('z'), true));
}
