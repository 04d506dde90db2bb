//! The keystroke decoder: translates the raw bytes a peer sends on the
//! data channel into structured key events. Decoding is total: an
//! unrecognized byte or sequence degrades to a null key rather than an
//! error, since dropping one keystroke is preferable to ending the session.

use vstd::prelude::*;

verus! {

/// The end-of-text control character, sent for Ctrl+c.
pub const CTRL_C: char = '\u{3}';

/// The end-of-transmission control character, sent for Ctrl+d.
pub const CTRL_D: char = '\u{4}';

/// The substitute control character, sent for Ctrl+z.
pub const CTRL_Z: char = '\u{1a}';

/// A decoded key.
#[derive(Debug, Clone, Copy, PartialEq, Eq, Structural)]
pub enum KeyCode {
    Char(char),
    Backspace,
    Tab,
    Enter,
    Esc,
    Left,
    Up,
    Right,
    Down,
    PageUp,
    PageDown,
    Home,
    End,
    Insert,
    Delete,
    Menu,
    CapsLock,
    NumLock,
    ScrollLock,
    Pause,
    F(u8),
    Null,
}

/// A key together with its modifier: the runtime only ever distinguishes
/// the control modifier.
#[derive(Debug, Clone, Copy, PartialEq, Eq, Structural)]
pub struct KeyEvent {
    pub code: KeyCode,
    pub ctrl: bool,
}

impl KeyEvent {
    /// Pair a key with its modifier state.
    pub fn new(code: KeyCode, ctrl: bool) -> (r: KeyEvent)
        ensures
            r.code == code,
            r.ctrl == ctrl,
    {
        KeyEvent { code, ctrl }
    }
}

/// Which key a single keystroke byte stands for.
pub open spec fn spec_key_of_byte(b: u8) -> KeyCode {
    if b == 3 {
        KeyCode::Char(CTRL_C)
    } else if b == 4 {
        KeyCode::Char(CTRL_D)
    } else if b == 26 {
        KeyCode::Char(CTRL_Z)
    } else if b == 8 {
        KeyCode::Backspace
    } else if b == 9 {
        KeyCode::Tab
    } else if b == 13 {
        KeyCode::Enter
    } else if b == 27 {
        KeyCode::Esc
    } else if b == 37 {
        KeyCode::Left
    } else if b == 38 {
        KeyCode::Up
    } else if b == 39 {
        KeyCode::Right
    } else if b == 40 {
        KeyCode::Down
    } else if b == 33 {
        KeyCode::PageUp
    } else if b == 34 {
        KeyCode::PageDown
    } else if b == 36 {
        KeyCode::Home
    } else if b == 35 {
        KeyCode::End
    } else if b == 45 {
        KeyCode::Insert
    } else if b == 46 {
        KeyCode::Delete
    } else if b == 93 {
        KeyCode::Menu
    } else if 32 <= b && b <= 126 {
        KeyCode::Char(b as char)
    } else if b == 127 {
        KeyCode::Backspace
    } else if b == 20 {
        KeyCode::CapsLock
    } else if b == 144 {
        KeyCode::NumLock
    } else if b == 145 {
        KeyCode::ScrollLock
    } else if b == 19 {
        KeyCode::Pause
    } else {
        KeyCode::Null
    }
}

/// Whether a single byte stands for any key at all.
pub open spec fn spec_byte_recognized(b: u8) -> bool {
    spec_key_of_byte(b) != KeyCode::Null
}

/// Whether a byte sequence is one of the recognized multi-byte xterm
/// escape table entries.
pub open spec fn spec_escape_entry(s: Seq<u8>) -> bool {
    ||| s =~= seq![27u8, 91u8, 65u8]
    ||| s =~= seq![27u8, 91u8, 66u8]
    ||| s =~= seq![27u8, 91u8, 67u8]
    ||| s =~= seq![27u8, 91u8, 68u8]
    ||| s =~= seq![27u8, 91u8, 49u8, 126u8]
    ||| s =~= seq![27u8, 91u8, 52u8, 126u8]
    ||| s =~= seq![27u8, 91u8, 51u8, 126u8]
    ||| s =~= seq![27u8, 91u8, 53u8, 126u8]
    ||| s =~= seq![27u8, 91u8, 54u8, 126u8]
    ||| s =~= seq![27u8, 79u8, 80u8]
    ||| s =~= seq![27u8, 79u8, 81u8]
    ||| s =~= seq![27u8, 79u8, 82u8]
    ||| s =~= seq![27u8, 79u8, 83u8]
    ||| s =~= seq![27u8, 91u8, 49u8, 53u8, 126u8]
    ||| s =~= seq![27u8, 91u8, 49u8, 55u8, 126u8]
    ||| s =~= seq![27u8, 91u8, 49u8, 56u8, 126u8]
    ||| s =~= seq![27u8, 91u8, 49u8, 57u8, 126u8]
    ||| s =~= seq![27u8, 91u8, 50u8, 48u8, 126u8]
    ||| s =~= seq![27u8, 91u8, 50u8, 49u8, 126u8]
    ||| s =~= seq![27u8, 91u8, 50u8, 51u8, 126u8]
    ||| s =~= seq![27u8, 91u8, 50u8, 52u8, 126u8]
}

/// Which key a byte sequence decodes to: a single byte decodes by the
/// single-byte table, a recognized escape entry decodes to its key, and
/// everything else degrades to the null key.
pub open spec fn spec_key_of_seq(s: Seq<u8>) -> KeyCode {
    if s.len() == 1 {
        spec_key_of_byte(s[0])
    } else if s =~= seq![27u8, 91u8, 65u8] {
        KeyCode::Up
    } else if s =~= seq![27u8, 91u8, 66u8] {
        KeyCode::Down
    } else if s =~= seq![27u8, 91u8, 67u8] {
        KeyCode::Right
    } else if s =~= seq![27u8, 91u8, 68u8] {
        KeyCode::Left
    } else if s =~= seq![27u8, 91u8, 49u8, 126u8] {
        KeyCode::Home
    } else if s =~= seq![27u8, 91u8, 52u8, 126u8] {
        KeyCode::End
    } else if s =~= seq![27u8, 91u8, 51u8, 126u8] {
        KeyCode::Delete
    } else if s =~= seq![27u8, 91u8, 53u8, 126u8] {
        KeyCode::PageUp
    } else if s =~= seq![27u8, 91u8, 54u8, 126u8] {
        KeyCode::PageDown
    } else if s =~= seq![27u8, 79u8, 80u8] {
        KeyCode::F(1)
    } else if s =~= seq![27u8, 79u8, 81u8] {
        KeyCode::F(2)
    } else if s =~= seq![27u8, 79u8, 82u8] {
        KeyCode::F(3)
    } else if s =~= seq![27u8, 79u8, 83u8] {
        KeyCode::F(4)
    } else if s =~= seq![27u8, 91u8, 49u8, 53u8, 126u8] {
        KeyCode::F(5)
    } else if s =~= seq![27u8, 91u8, 49u8, 55u8, 126u8] {
        KeyCode::F(6)
    } else if s =~= seq![27u8, 91u8, 49u8, 56u8, 126u8] {
        KeyCode::F(7)
    } else if s =~= seq![27u8, 91u8, 49u8, 57u8, 126u8] {
        KeyCode::F(8)
    } else if s =~= seq![27u8, 91u8, 50u8, 48u8, 126u8] {
        KeyCode::F(9)
    } else if s =~= seq![27u8, 91u8, 50u8, 49u8, 126u8] {
        KeyCode::F(10)
    } else if s =~= seq![27u8, 91u8, 50u8, 51u8, 126u8] {
        KeyCode::F(11)
    } else if s =~= seq![27u8, 91u8, 50u8, 52u8, 126u8] {
        KeyCode::F(12)
    } else {
        KeyCode::Null
    }
}

impl KeyCode {
    /// Create a key code from a single keystroke byte.
    pub fn from(code: u8) -> (r: KeyCode)
        ensures
            r == spec_key_of_byte(code),
    {
        if code == 3 {
            KeyCode::Char(CTRL_C)
        } else if code == 4 {
            KeyCode::Char(CTRL_D)
        } else if code == 26 {
            KeyCode::Char(CTRL_Z)
        } else if code == 8 {
            KeyCode::Backspace
        } else if code == 9 {
            KeyCode::Tab
        } else if code == 13 {
            KeyCode::Enter
        } else if code == 27 {
            KeyCode::Esc
        } else if code == 37 {
            KeyCode::Left
        } else if code == 38 {
            KeyCode::Up
        } else if code == 39 {
            KeyCode::Right
        } else if code == 40 {
            KeyCode::Down
        } else if code == 33 {
            KeyCode::PageUp
        } else if code == 34 {
            KeyCode::PageDown
        } else if code == 36 {
            KeyCode::Home
        } else if code == 35 {
            KeyCode::End
        } else if code == 45 {
            KeyCode::Insert
        } else if code == 46 {
            KeyCode::Delete
        } else if code == 93 {
            KeyCode::Menu
        } else if 32 <= code && code <= 126 {
            KeyCode::Char(code as char)
        } else if code == 127 {
            KeyCode::Backspace
        } else if code == 20 {
            KeyCode::CapsLock
        } else if code == 144 {
            KeyCode::NumLock
        } else if code == 145 {
            KeyCode::ScrollLock
        } else if code == 19 {
            KeyCode::Pause
        } else {
            KeyCode::Null
        }
    }

    /// Create a key code from an xterm byte sequence of keystroke data.
    pub fn from_xterm_seq(seq: &[u8]) -> (r: KeyCode)
        ensures
            r == spec_key_of_seq(seq@),
    {
        let n = seq.len();
        if n == 1 {
            KeyCode::from(seq[0])
        } else if n == 3 && seq[0] == 27 && seq[1] == 91 {
            if seq[2] == 65 {
                KeyCode::Up
            } else if seq[2] == 66 {
                KeyCode::Down
            } else if seq[2] == 67 {
                KeyCode::Right
            } else if seq[2] == 68 {
                KeyCode::Left
            } else {
                KeyCode::Null
            }
        } else if n == 3 && seq[0] == 27 && seq[1] == 79 {
            if seq[2] == 80 {
                KeyCode::F(1)
            } else if seq[2] == 81 {
                KeyCode::F(2)
            } else if seq[2] == 82 {
                KeyCode::F(3)
            } else if seq[2] == 83 {
                KeyCode::F(4)
            } else {
                KeyCode::Null
            }
        } else if n == 4 && seq[0] == 27 && seq[1] == 91 && seq[3] == 126 {
            if seq[2] == 49 {
                KeyCode::Home
            } else if seq[2] == 52 {
                KeyCode::End
            } else if seq[2] == 51 {
                KeyCode::Delete
            } else if seq[2] == 53 {
                KeyCode::PageUp
            } else if seq[2] == 54 {
                KeyCode::PageDown
            } else {
                KeyCode::Null
            }
        } else if n == 5 && seq[0] == 27 && seq[1] == 91 && seq[2] == 49 && seq[4] == 126 {
            if seq[3] == 53 {
                KeyCode::F(5)
            } else if seq[3] == 55 {
                KeyCode::F(6)
            } else if seq[3] == 56 {
                KeyCode::F(7)
            } else if seq[3] == 57 {
                KeyCode::F(8)
            } else {
                KeyCode::Null
            }
        } else if n == 5 && seq[0] == 27 && seq[1] == 91 && seq[2] == 50 && seq[4] == 126 {
            if seq[3] == 48 {
                KeyCode::F(9)
            } else if seq[3] == 49 {
                KeyCode::F(10)
            } else if seq[3] == 51 {
                KeyCode::F(11)
            } else if seq[3] == 52 {
                KeyCode::F(12)
            } else {
                KeyCode::Null
            }
        } else {
            KeyCode::Null
        }
    }

    /// Consume the key code, converting it into a key event: the three
    /// control bytes become Ctrl+letter combinations, everything else
    /// carries no modifier.
    pub fn into_key_event(self) -> (r: KeyEvent)
        ensures
            r == spec_key_event_of(self),
    {
        match self {
            KeyCode::Char(c) => {
                if c == CTRL_C {
                    KeyEvent { code: KeyCode::Char('c'), ctrl: true }
                } else if c == CTRL_D {
                    KeyEvent { code: KeyCode::Char('d'), ctrl: true }
                } else if c == CTRL_Z {
                    KeyEvent { code: KeyCode::Char('z'), ctrl: true }
                } else {
                    KeyEvent { code: self, ctrl: false }
                }
            },
            _ => KeyEvent { code: self, ctrl: false },
        }
    }
}

/// Which key event a decoded key stands for.
pub open spec fn spec_key_event_of(code: KeyCode) -> KeyEvent {
    if code == KeyCode::Char(CTRL_C) {
        KeyEvent { code: KeyCode::Char('c'), ctrl: true }
    } else if code == KeyCode::Char(CTRL_D) {
        KeyEvent { code: KeyCode::Char('d'), ctrl: true }
    } else if code == KeyCode::Char(CTRL_Z) {
        KeyEvent { code: KeyCode::Char('z'), ctrl: true }
    } else {
        KeyEvent { code, ctrl: false }
    }
}

/// Every byte sequence outside the recognized tables decodes to the null
/// key: decoding never fails, whatever the peer sends.
pub proof fn lemma_unrecognized_decodes_to_null(s: Seq<u8>)
    requires
        !(s.len() == 1 && spec_byte_recognized(s[0])),
        !spec_escape_entry(s),
    ensures
        spec_key_of_seq(s) == KeyCode::Null,
{
}

} // verus!
