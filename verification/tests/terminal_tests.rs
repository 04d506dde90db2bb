use devcomp::terminal::{
    Capability, ProtocolType, TerminalInfo, TerminalKind, UnsupportedReason, DEFAULT_FONT_HEIGHT,
    DEFAULT_FONT_WIDTH,
};

#[test]
fn kind_first_write_wins() {
    // Once `kind` leaves unprobed, later writes are no-ops.
    let mut info = TerminalInfo::default();
    assert!(matches!(
        info.kind(),
        TerminalKind::Unsupported(UnsupportedReason::Unprobed)
    ));
    info.set_kind(TerminalKind::Kitty);
    info.set_kind(TerminalKind::Wezterm);
    assert!(matches!(info.kind(), TerminalKind::Kitty));
}

#[test]
fn kind_unknown_still_counts_as_probed() {
    let mut info = TerminalInfo::default();
    info.set_kind(TerminalKind::Unsupported(UnsupportedReason::Unknown));
    info.set_kind(TerminalKind::Ghostty);
    assert!(matches!(
        info.kind(),
        TerminalKind::Unsupported(UnsupportedReason::Unknown)
    ));
}

#[test]
fn font_size_defaults_until_set() {
    let mut info = TerminalInfo::default();
    assert_eq!(info.font_size(), (DEFAULT_FONT_WIDTH, DEFAULT_FONT_HEIGHT));
    info.set_font_size((8, 16));
    assert_eq!(info.font_size(), (8, 16));
    // Unlike `kind`, the font size follows every later write.
    info.set_font_size((10, 20));
    assert_eq!(info.font_size(), (10, 20));
}

#[test]
fn term_program_substring_match() {
    assert!(matches!(
        TerminalKind::from_term_program("WezTerm 20240203"),
        TerminalKind::Wezterm
    ));
    assert!(matches!(
        TerminalKind::from_term_program("iTerm.app"),
        TerminalKind::ITerm2
    ));
    assert!(matches!(
        TerminalKind::from_term_program("ghostty"),
        TerminalKind::Ghostty
    ));
    assert!(matches!(
        TerminalKind::from_term_program("vscode"),
        TerminalKind::Vscode
    ));
    // Case-sensitive: the lowercase form does not match the table entry.
    assert!(matches!(
        TerminalKind::from_term_program("wezterm"),
        TerminalKind::Unsupported(UnsupportedReason::Unknown)
    ));
    assert!(matches!(
        TerminalKind::from_term_program("screen"),
        TerminalKind::Unsupported(UnsupportedReason::Unknown)
    ));
    assert!(matches!(
        TerminalKind::from_term_program(""),
        TerminalKind::Unsupported(UnsupportedReason::Unknown)
    ));
}

#[test]
fn supported_lists_all_terminals() {
    assert_eq!(
        TerminalKind::supported(),
        "ghostty, hyper, iterm2, kitty, mintty, rio, tabby, vscode, wezterm"
    );
}

#[test]
fn capabilities_by_family() {
    assert_eq!(TerminalKind::Hyper.capabilities(), vec![Capability::RectangularOps]);
    assert_eq!(
        TerminalKind::Kitty.capabilities(),
        vec![
            Capability::Kitty,
            Capability::RectangularOps,
            Capability::TextSizingProtocol
        ]
    );
    assert_eq!(
        TerminalKind::Wezterm.capabilities(),
        vec![Capability::Sixel, Capability::Kitty, Capability::RectangularOps]
    );
    assert_eq!(
        TerminalKind::Unsupported(UnsupportedReason::Unsized).capabilities(),
        Vec::new()
    );
}

#[test]
fn protocol_by_family() {
    assert_eq!(TerminalKind::ITerm2.as_protocol(), ProtocolType::Iterm2);
    assert_eq!(TerminalKind::Rio.as_protocol(), ProtocolType::Iterm2);
    assert_eq!(TerminalKind::Ghostty.as_protocol(), ProtocolType::Kitty);
    assert_eq!(TerminalKind::Kitty.as_protocol(), ProtocolType::Kitty);
    assert_eq!(
        TerminalKind::Unsupported(UnsupportedReason::Unknown).as_protocol(),
        ProtocolType::Halfblocks
    );
}
