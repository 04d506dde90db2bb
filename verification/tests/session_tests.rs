use devcomp::action::Action;
use devcomp::keycode::{KeyCode, KeyEvent};
use devcomp::ssh::{Auth, Geometry, SessionError, SshServer, SshSession};
use devcomp::terminal::{TerminalKind, UnsupportedReason};

#[test]
fn authentication_accepts_every_identity() {
    let session = SshSession::new();
    assert_eq!(session.auth_none("anyone"), Auth::Accept);
    assert_eq!(session.auth_none(""), Auth::Accept);
}

#[test]
fn one_interactive_channel_per_session() {
    let mut server = SshServer::default();
    let mut session = server.new_client();
    assert_eq!(session.channel_open_session(), Ok(true));
    // The quota is one: a second open request is a protocol error.
    assert_eq!(
        session.channel_open_session(),
        Err(SessionError::ChannelQuotaExceeded)
    );
}

#[test]
fn channel_open_needs_the_state_machine() {
    let mut session = SshSession::new();
    session.app_available = false;
    assert_eq!(session.channel_open_session(), Err(SessionError::AppUnavailable));
}

#[test]
fn env_request_selects_terminal_kind() {
    let mut session = SshSession::new();
    session.env_request("EDITOR", "vim");
    assert!(matches!(
        session.terminal_info.kind(),
        TerminalKind::Unsupported(UnsupportedReason::Unprobed)
    ));
    session.env_request("TERM_PROGRAM", "WezTerm");
    assert!(matches!(session.terminal_info.kind(), TerminalKind::Wezterm));
    // First negotiation wins.
    session.env_request("TERM_PROGRAM", "ghostty");
    assert!(matches!(session.terminal_info.kind(), TerminalKind::Wezterm));
}

#[test]
fn pty_request_rejects_non_xterm_families() {
    // A PTY request with terminal type "screen" fails the channel and
    // releases no geometry, so no state machine is started.
    let mut session = SshSession::new();
    let r = session.pty_request("screen", 120, 40, 960, 800);
    assert_eq!(r, Err(SessionError::UnsupportedTerminal));
    assert!(!session.init_dims_sent);
    assert_eq!(session.geometry, None);
}

#[test]
fn pty_request_releases_geometry_once() {
    let mut session = SshSession::new();
    let r = session.pty_request("xterm-256color", 120, 40, 960, 800).unwrap();
    assert_eq!(
        r.init_geometry,
        Some(Geometry { cols: 120, rows: 40, pixel_width: 960, pixel_height: 800 })
    );
    assert!(session.init_dims_sent);
    // Font metrics derive from pixel over character size.
    assert_eq!(session.terminal_info.font_size(), (8, 20));

    // A later request acknowledges but does not release again.
    let r = session.pty_request("xterm", 100, 30, 800, 600).unwrap();
    assert_eq!(r.init_geometry, None);
}

#[test]
fn pty_request_without_pixels_marks_unsized() {
    let mut session = SshSession::new();
    let r = session.pty_request("xterm", 80, 24, 0, 0);
    assert!(r.is_ok());
    assert!(matches!(
        session.terminal_info.kind(),
        TerminalKind::Unsupported(UnsupportedReason::Unsized)
    ));
}

#[test]
fn pty_request_rejects_oversized_font_metrics() {
    let mut session = SshSession::new();
    let r = session.pty_request("xterm", 1, 40, 100_000, 800);
    assert_eq!(r, Err(SessionError::TerminalTooWide));
    let r = session.pty_request("xterm", 120, 1, 960, 100_000);
    assert_eq!(r, Err(SessionError::TerminalTooTall));
}

#[test]
fn window_change_updates_geometry_and_emits_resize() {
    // A window-change event (120, 40, 960, 800) updates the geometry to
    // 120x40 and yields exactly one resize action for the session.
    let mut session = SshSession::new();
    session.pty_request("xterm", 80, 24, 640, 480).unwrap();
    let action = session.window_change_request(120, 40, 960, 800).unwrap();
    assert_eq!(action, Action::Resize(120, 40));
    assert_eq!(
        session.geometry,
        Some(Geometry { cols: 120, rows: 40, pixel_width: 960, pixel_height: 800 })
    );
    assert_eq!(session.terminal_info.font_size(), (8, 20));
}

#[test]
fn window_change_rejects_oversized_font_metrics() {
    let mut session = SshSession::new();
    assert_eq!(
        session.window_change_request(1, 40, 100_000, 800),
        Err(SessionError::TerminalTooWide)
    );
    assert_eq!(
        session.window_change_request(120, 1, 960, 100_000),
        Err(SessionError::TerminalTooTall)
    );
}

#[test]
fn inbound_data_decodes_keystrokes() {
    // ESC [ A decodes to the Up key; 0x03 decodes to Ctrl+c.
    let session = SshSession::new();
    assert_eq!(
        session.data(&[0x1b, 0x5b, 0x41]),
        KeyEvent::new(KeyCode::Up, false)
    );
    assert_eq!(session.data(&[0x03]), KeyEvent::new(KeyCode::Char('c'), true));
    // Decoding never fails: junk degrades to the null key.
    assert_eq!(session.data(&[0xff, 0xfe]), KeyEvent::new(KeyCode::Null, false));
}

#[test]
fn error_messages() {
    assert_eq!(
        SessionError::UnsupportedTerminal.message(),
        "Unsupported terminal type"
    );
    assert_eq!(SessionError::TerminalTooWide.message(), "Terminal too wide");
    assert_eq!(SessionError::TerminalTooTall.message(), "Terminal too tall");
    assert_eq!(
        SessionError::AppUnavailable.message(),
        "Failed to initialize App for session"
    );
    assert_eq!(
        SessionError::ChannelQuotaExceeded.message(),
        "Session already has an interactive channel"
    );
}
