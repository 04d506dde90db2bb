//! The capability model: the remote terminal's identity as negotiated over
//! environment variables, the per-cell font metrics derived from PTY
//! geometry, and the rendering protocol each terminal family supports.
//!
//! The `kind` field is write-once: the first negotiation that probes a
//! terminal identity wins, and later writes are no-ops.

use vstd::prelude::*;
use vstd::string::*;

use crate::strutil::{spec_contains, str_contains};

verus! {

/// Why a terminal is treated as unsupported.
#[derive(Debug, Clone, Copy, PartialEq, Eq, Structural)]
pub enum UnsupportedReason {
    /// The terminal emulator reports no real pixel size, so no font size
    /// can be derived for cell-pitch based rendering.
    Unsized,
    /// The terminal emulator is not a known one.
    Unknown,
    /// The terminal emulator has not been probed yet; this is the state
    /// between channel creation and environment negotiation.
    Unprobed,
}

/// The identity of the remote terminal emulator.
#[derive(Debug, Clone, Copy, PartialEq, Eq, Structural)]
pub enum TerminalKind {
    Ghostty,
    Hyper,
    ITerm2,
    Kitty,
    MinTty,
    Rio,
    Tabby,
    Vscode,
    Wezterm,
    Unsupported(UnsupportedReason),
}

/// A rendering capability a terminal family offers.
#[derive(Debug, Clone, Copy, PartialEq, Eq, Structural)]
pub enum Capability {
    Kitty,
    Sixel,
    RectangularOps,
    TextSizingProtocol,
}

/// The inline-image protocol chosen for a terminal.
#[derive(Debug, Clone, Copy, PartialEq, Eq, Structural)]
pub enum ProtocolType {
    Halfblocks,
    Sixel,
    Kitty,
    Iterm2,
}

/// Font size assumed when the peer never reported pixel geometry.
pub const DEFAULT_FONT_WIDTH: u16 = 12;

/// Font size assumed when the peer never reported pixel geometry.
pub const DEFAULT_FONT_HEIGHT: u16 = 12;

/// Detected terminal identity plus the font metrics it implies.
#[derive(Debug, Clone, Copy)]
pub struct TerminalInfo {
    kind: TerminalKind,
    font_size: Option<(u16, u16)>,
}

/// What one write against the write-once `kind` field yields.
pub open spec fn spec_set_kind(current: TerminalKind, new: TerminalKind) -> TerminalKind {
    if current == TerminalKind::Unsupported(UnsupportedReason::Unprobed) {
        new
    } else {
        current
    }
}

impl TerminalInfo {
    /// The negotiated terminal identity.
    pub closed spec fn spec_kind(&self) -> TerminalKind {
        self.kind
    }

    /// The font size as last written, if ever written.
    pub closed spec fn spec_font_size(&self) -> Option<(u16, u16)> {
        self.font_size
    }

    /// Get the terminal kind.
    pub fn kind(&self) -> (k: &TerminalKind)
        ensures
            *k == self.spec_kind(),
    {
        &self.kind
    }

    /// Get the font size, falling back to the default metrics when the
    /// peer never reported pixel geometry.
    pub fn font_size(&self) -> (s: (u16, u16))
        ensures
            s == match self.spec_font_size() {
                Option::Some(fs) => fs,
                Option::None => (DEFAULT_FONT_WIDTH, DEFAULT_FONT_HEIGHT),
            },
    {
        match self.font_size {
            Option::Some(fs) => fs,
            Option::None => (DEFAULT_FONT_WIDTH, DEFAULT_FONT_HEIGHT),
        }
    }

    /// Sets the terminal kind, if currently unset (that is, unprobed):
    /// the first writer wins and every later write is a no-op.
    pub fn set_kind(&mut self, kind: TerminalKind)
        ensures
            final(self).spec_kind() == spec_set_kind(old(self).spec_kind(), kind),
            final(self).spec_font_size() == old(self).spec_font_size(),
    {
        if matches!(self.kind, TerminalKind::Unsupported(UnsupportedReason::Unprobed)) {
            self.kind = kind;
        }
    }

    /// Sets the font size; unlike `kind` this follows every window change.
    pub fn set_font_size(&mut self, font_size: (u16, u16))
        ensures
            final(self).spec_font_size() == Option::Some(font_size),
            final(self).spec_kind() == old(self).spec_kind(),
    {
        self.font_size = Option::Some(font_size);
    }
}

impl Default for TerminalInfo {
    /// A fresh capability model: identity not yet probed, no font metrics.
    fn default() -> (r: Self)
        ensures
            r.spec_kind() == TerminalKind::Unsupported(UnsupportedReason::Unprobed),
            r.spec_font_size() is None,
    {
        TerminalInfo {
            kind: TerminalKind::Unsupported(UnsupportedReason::Unprobed),
            font_size: Option::None,
        }
    }
}

/// Which identity a `TERM_PROGRAM` value selects: the first table entry
/// whose name occurs in the value, else unknown.
pub open spec fn spec_from_term_program(p: Seq<char>) -> TerminalKind {
    if spec_contains(p, "ghostty"@) {
        TerminalKind::Ghostty
    } else if spec_contains(p, "iTerm.app"@) {
        TerminalKind::ITerm2
    } else if spec_contains(p, "iTerm2"@) {
        TerminalKind::ITerm2
    } else if spec_contains(p, "WezTerm"@) {
        TerminalKind::Wezterm
    } else if spec_contains(p, "mintty"@) {
        TerminalKind::MinTty
    } else if spec_contains(p, "vscode"@) {
        TerminalKind::Vscode
    } else if spec_contains(p, "Tabby"@) {
        TerminalKind::Tabby
    } else if spec_contains(p, "Hyper"@) {
        TerminalKind::Hyper
    } else if spec_contains(p, "rio"@) {
        TerminalKind::Rio
    } else {
        TerminalKind::Unsupported(UnsupportedReason::Unknown)
    }
}

impl TerminalKind {
    /// The lowercase display name of this kind.
    pub open spec fn spec_name(&self) -> Seq<char> {
        match *self {
            TerminalKind::Ghostty => "ghostty"@,
            TerminalKind::Hyper => "hyper"@,
            TerminalKind::ITerm2 => "iterm2"@,
            TerminalKind::Kitty => "kitty"@,
            TerminalKind::MinTty => "mintty"@,
            TerminalKind::Rio => "rio"@,
            TerminalKind::Tabby => "tabby"@,
            TerminalKind::Vscode => "vscode"@,
            TerminalKind::Wezterm => "wezterm"@,
            TerminalKind::Unsupported(_) => "unsupported"@,
        }
    }

    /// The lowercase display name of this kind.
    pub fn name(&self) -> (r: &'static str)
        ensures
            r@ == self.spec_name(),
    {
        match *self {
            TerminalKind::Ghostty => "ghostty",
            TerminalKind::Hyper => "hyper",
            TerminalKind::ITerm2 => "iterm2",
            TerminalKind::Kitty => "kitty",
            TerminalKind::MinTty => "mintty",
            TerminalKind::Rio => "rio",
            TerminalKind::Tabby => "tabby",
            TerminalKind::Vscode => "vscode",
            TerminalKind::Wezterm => "wezterm",
            TerminalKind::Unsupported(_) => "unsupported",
        }
    }

    /// Select a terminal identity from the client's terminal program name:
    /// a case-sensitive substring match against the known names, first
    /// match winning, unknown programs mapping to unsupported.
    pub fn from_term_program(program: &str) -> (r: Self)
        ensures
            r == spec_from_term_program(program@),
    {
        if str_contains(program, "ghostty") {
            TerminalKind::Ghostty
        } else if str_contains(program, "iTerm.app") {
            TerminalKind::ITerm2
        } else if str_contains(program, "iTerm2") {
            TerminalKind::ITerm2
        } else if str_contains(program, "WezTerm") {
            TerminalKind::Wezterm
        } else if str_contains(program, "mintty") {
            TerminalKind::MinTty
        } else if str_contains(program, "vscode") {
            TerminalKind::Vscode
        } else if str_contains(program, "Tabby") {
            TerminalKind::Tabby
        } else if str_contains(program, "Hyper") {
            TerminalKind::Hyper
        } else if str_contains(program, "rio") {
            TerminalKind::Rio
        } else {
            TerminalKind::Unsupported(UnsupportedReason::Unknown)
        }
    }

    /// The comma-separated list of all supported terminal names.
    pub fn supported() -> (r: String)
        ensures
            r@ == "ghostty, hyper, iterm2, kitty, mintty, rio, tabby, vscode, wezterm"@,
    {
        let mut s = TerminalKind::Ghostty.name().to_owned();
        s.append(", ");
        s.append(TerminalKind::Hyper.name());
        s.append(", ");
        s.append(TerminalKind::ITerm2.name());
        s.append(", ");
        s.append(TerminalKind::Kitty.name());
        s.append(", ");
        s.append(TerminalKind::MinTty.name());
        s.append(", ");
        s.append(TerminalKind::Rio.name());
        s.append(", ");
        s.append(TerminalKind::Tabby.name());
        s.append(", ");
        s.append(TerminalKind::Vscode.name());
        s.append(", ");
        s.append(TerminalKind::Wezterm.name());
        proof {
            reveal_strlit("ghostty");
            reveal_strlit("hyper");
            reveal_strlit("iterm2");
            reveal_strlit("kitty");
            reveal_strlit("mintty");
            reveal_strlit("rio");
            reveal_strlit("tabby");
            reveal_strlit("vscode");
            reveal_strlit("wezterm");
            reveal_strlit(", ");
            reveal_strlit("ghostty, hyper, iterm2, kitty, mintty, rio, tabby, vscode, wezterm");
            assert(s@ =~= "ghostty, hyper, iterm2, kitty, mintty, rio, tabby, vscode, wezterm"@);
        }
        s
    }

    /// The rendering capabilities of this terminal family.
    pub open spec fn spec_capabilities(&self) -> Seq<Capability> {
        match *self {
            TerminalKind::Hyper | TerminalKind::Vscode => seq![Capability::RectangularOps],
            TerminalKind::Ghostty => seq![Capability::Kitty, Capability::RectangularOps],
            TerminalKind::Tabby | TerminalKind::MinTty | TerminalKind::Rio => seq![
                Capability::Sixel,
                Capability::RectangularOps,
            ],
            TerminalKind::ITerm2 | TerminalKind::Wezterm => seq![
                Capability::Sixel,
                Capability::Kitty,
                Capability::RectangularOps,
            ],
            TerminalKind::Kitty => seq![
                Capability::Kitty,
                Capability::RectangularOps,
                Capability::TextSizingProtocol,
            ],
            TerminalKind::Unsupported(_) => Seq::empty(),
        }
    }

    /// The rendering capabilities of this terminal family.
    pub fn capabilities(&self) -> (r: Vec<Capability>)
        ensures
            r@ == self.spec_capabilities(),
    {
        let r: Vec<Capability> = match *self {
            TerminalKind::Hyper | TerminalKind::Vscode => vec![Capability::RectangularOps],
            TerminalKind::Ghostty => vec![Capability::Kitty, Capability::RectangularOps],
            TerminalKind::Tabby | TerminalKind::MinTty | TerminalKind::Rio => vec![
                Capability::Sixel,
                Capability::RectangularOps,
            ],
            TerminalKind::ITerm2 | TerminalKind::Wezterm => vec![
                Capability::Sixel,
                Capability::Kitty,
                Capability::RectangularOps,
            ],
            TerminalKind::Kitty => vec![
                Capability::Kitty,
                Capability::RectangularOps,
                Capability::TextSizingProtocol,
            ],
            TerminalKind::Unsupported(_) => Vec::new(),
        };
        proof {
            assert(r@ =~= self.spec_capabilities());
        }
        r
    }

    /// The inline-image protocol chosen for this terminal family: the
    /// iTerm2 protocol for the families that speak it, else Kitty where
    /// available, else Sixel, else character halfblocks.
    pub open spec fn spec_as_protocol(&self) -> ProtocolType {
        match *self {
            TerminalKind::ITerm2
            | TerminalKind::Wezterm
            | TerminalKind::MinTty
            | TerminalKind::Vscode
            | TerminalKind::Tabby
            | TerminalKind::Hyper
            | TerminalKind::Rio => ProtocolType::Iterm2,
            TerminalKind::Ghostty | TerminalKind::Kitty => ProtocolType::Kitty,
            TerminalKind::Unsupported(_) => ProtocolType::Halfblocks,
        }
    }

    /// The inline-image protocol chosen for this terminal family.
    pub fn as_protocol(&self) -> (r: ProtocolType)
        ensures
            r == self.spec_as_protocol(),
            r == ProtocolType::Kitty ==> self.spec_capabilities().contains(Capability::Kitty),
    {
        let r = match *self {
            TerminalKind::ITerm2
            | TerminalKind::Wezterm
            | TerminalKind::MinTty
            | TerminalKind::Vscode
            | TerminalKind::Tabby
            | TerminalKind::Hyper
            | TerminalKind::Rio => ProtocolType::Iterm2,
            TerminalKind::Ghostty | TerminalKind::Kitty => ProtocolType::Kitty,
            TerminalKind::Unsupported(_) => ProtocolType::Halfblocks,
        };
        proof {
            if r == ProtocolType::Kitty {
                assert(self.spec_capabilities()[0] == Capability::Kitty);
            }
        }
        r
    }
}

/// Once `kind` has left the unprobed state, every further write is a
/// no-op: writing `a` and then `b` yields the same identity as writing
/// `a` alone.
pub proof fn lemma_kind_first_write_wins(start: TerminalKind, a: TerminalKind, b: TerminalKind)
    requires
        spec_set_kind(start, a) != TerminalKind::Unsupported(UnsupportedReason::Unprobed),
    ensures
        spec_set_kind(spec_set_kind(start, a), b) == spec_set_kind(start, a),
{
}

} // verus!
