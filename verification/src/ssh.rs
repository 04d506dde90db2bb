//! The transport session: the output bridge that buffers rendered bytes
//! into whole outbound data frames, and the session handler's protocol
//! decisions — authentication, channel quota, environment negotiation,
//! PTY geometry, inbound keystroke data and window changes.

use vstd::prelude::*;

use crate::action::Action;
use crate::keycode::{spec_key_event_of, spec_key_of_seq, KeyCode, KeyEvent};
use crate::strutil::{spec_contains, str_contains, str_eq};
use crate::terminal::{
    spec_from_term_program, spec_set_kind, TerminalInfo, TerminalKind, UnsupportedReason,
};

verus! {

/// Concatenation of byte runs, in order.
pub open spec fn spec_concat(ws: Seq<Seq<u8>>) -> Seq<u8>
    decreases ws.len(),
{
    if ws.len() == 0 {
        Seq::empty()
    } else {
        spec_concat(ws.drop_last()) + ws.last()
    }
}

/// The output bridge: an owned, buffered sink for rendered terminal
/// bytes. Writes accumulate in memory; a flush hands the whole buffer
/// out as one outbound data frame, and the buffer is cleared only after
/// the transport acknowledged the frame.
pub struct TermWriter {
    inner: Vec<u8>,
    writes: Ghost<Seq<Seq<u8>>>,
}

impl TermWriter {
    /// The bytes currently buffered and not yet flushed.
    pub closed spec fn buffered(&self) -> Seq<u8> {
        self.inner@
    }

    /// The byte runs written since the last completed flush.
    pub closed spec fn writes(&self) -> Seq<Seq<u8>> {
        self.writes@
    }

    /// The buffer holds exactly the concatenation of the writes since
    /// the last completed flush, in order.
    pub closed spec fn wf(&self) -> bool {
        self.inner@ == spec_concat(self.writes@)
    }

    /// A fresh, empty bridge.
    pub fn new() -> (r: TermWriter)
        ensures
            r.wf(),
            r.buffered() == Seq::<u8>::empty(),
            r.writes() == Seq::<Seq<u8>>::empty(),
    {
        TermWriter { inner: Vec::new(), writes: Ghost(Seq::empty()) }
    }

    /// Buffer one run of rendered bytes; nothing leaves the process here.
    pub fn write(&mut self, buf: &[u8]) -> (n: usize)
        requires
            old(self).wf(),
            old(self).buffered().len() + buf@.len() <= usize::MAX,
        ensures
            final(self).wf(),
            final(self).buffered() == old(self).buffered() + buf@,
            final(self).writes() == old(self).writes().push(buf@),
            n == buf@.len(),
    {
        let mut i: usize = 0;
        while i < buf.len()
            invariant
                i <= buf@.len(),
                old(self).buffered().len() + buf@.len() <= usize::MAX,
                self.inner@ == old(self).inner@ + buf@.subrange(0, i as int),
                self.writes@ == old(self).writes@,
            decreases buf@.len() - i,
        {
            let b = buf[i];
            self.inner.push(b);
            proof {
                assert(old(self).inner@ + buf@.subrange(0, i as int) + seq![buf@[i as int]]
                    =~= old(self).inner@ + buf@.subrange(0, i as int + 1));
            }
            i += 1;
        }
        proof {
            assert(buf@.subrange(0, buf@.len() as int) =~= buf@);
            self.writes@ = self.writes@.push(buf@);
            assert(self.writes@.drop_last() =~= old(self).writes@);
        }
        buf.len()
    }

    /// Copy the buffer out as the payload of one outbound data frame:
    /// exactly the concatenation, in order, of every run written since
    /// the last completed flush.
    pub fn frame(&self) -> (r: Vec<u8>)
        requires
            self.wf(),
        ensures
            r@ == self.buffered(),
            r@ == spec_concat(self.writes()),
    {
        let mut out: Vec<u8> = Vec::new();
        let mut i: usize = 0;
        while i < self.inner.len()
            invariant
                i <= self.inner@.len(),
                out@ == self.inner@.subrange(0, i as int),
            decreases self.inner@.len() - i,
        {
            out.push(self.inner[i]);
            proof {
                assert(self.inner@.subrange(0, i as int).push(self.inner@[i as int])
                    =~= self.inner@.subrange(0, i as int + 1));
            }
            i += 1;
        }
        proof {
            assert(self.inner@.subrange(0, self.inner@.len() as int) =~= self.inner@);
        }
        out
    }

    /// Clear the buffer, once the transport has acknowledged the frame.
    /// On a failed send the buffer is left as it was, so no bytes are
    /// silently dropped.
    pub fn ack_flush(&mut self)
        ensures
            final(self).wf(),
            final(self).buffered() == Seq::<u8>::empty(),
            final(self).writes() == Seq::<Seq<u8>>::empty(),
    {
        self.inner.clear();
        proof {
            self.writes@ = Seq::empty();
        }
    }

    /// How many bytes are buffered.
    pub fn pending(&self) -> (n: usize)
        ensures
            n == self.buffered().len(),
    {
        self.inner.len()
    }
}

/// Buffering one more draw extends the eventual frame payload by exactly
/// that draw's bytes: a run of draws buffered without an intervening
/// flush yields, on flush, one frame holding their bytes concatenated in
/// order.
pub proof fn lemma_concat_append(ws: Seq<Seq<u8>>, w: Seq<u8>)
    ensures
        spec_concat(ws.push(w)) == spec_concat(ws) + w,
{
    assert(ws.push(w).drop_last() =~= ws);
    assert(ws.push(w).last() == w);
}

/// The transport's authentication verdict. The runtime accepts every
/// identity; a stricter policy is a drop-in replacement at this one site.
#[derive(Debug, Clone, Copy, PartialEq, Eq, Structural)]
pub enum Auth {
    Accept,
}

/// A protocol error fatal to the channel it arose on; the session and
/// its other channels are unaffected.
#[derive(Debug, Clone, Copy, PartialEq, Eq, Structural)]
pub enum SessionError {
    /// The PTY request named a terminal family other than xterm.
    UnsupportedTerminal,
    /// The application state machine could not be created for this session.
    AppUnavailable,
    /// The session already has its one interactive channel.
    ChannelQuotaExceeded,
    /// A cell would be wider than the widest representable font metric.
    TerminalTooWide,
    /// A cell would be taller than the tallest representable font metric.
    TerminalTooTall,
}

impl SessionError {
    /// A short description of the error.
    pub fn message(&self) -> (r: &'static str)
        ensures
            r@ == match *self {
                SessionError::UnsupportedTerminal => "Unsupported terminal type"@,
                SessionError::AppUnavailable => "Failed to initialize App for session"@,
                SessionError::ChannelQuotaExceeded => "Session already has an interactive channel"@,
                SessionError::TerminalTooWide => "Terminal too wide"@,
                SessionError::TerminalTooTall => "Terminal too tall"@,
            },
    {
        match *self {
            SessionError::UnsupportedTerminal => "Unsupported terminal type",
            SessionError::AppUnavailable => "Failed to initialize App for session",
            SessionError::ChannelQuotaExceeded => "Session already has an interactive channel",
            SessionError::TerminalTooWide => "Terminal too wide",
            SessionError::TerminalTooTall => "Terminal too tall",
        }
    }
}

/// Negotiated character and pixel dimensions of the remote terminal;
/// pixel dimensions are zero when the peer cannot report them.
#[derive(Debug, Clone, Copy, PartialEq, Eq, Structural)]
pub struct Geometry {
    pub cols: u16,
    pub rows: u16,
    pub pixel_width: u16,
    pub pixel_height: u16,
}

/// The acknowledgment of a successful PTY request: on the first success
/// it releases the deferred initial geometry, letting the backend and
/// the scheduler start.
#[derive(Debug, Clone, Copy, PartialEq, Eq, Structural)]
pub struct PtyAccept {
    pub init_geometry: Option<Geometry>,
}

/// The per-connection protocol handler's state: one capability model,
/// one interactive channel at most, and the deferred initial geometry.
pub struct SshSession {
    /// The session's capability model, shared with the renderer.
    pub terminal_info: TerminalInfo,
    /// Whether the application state machine was created successfully.
    pub app_available: bool,
    /// Whether the one interactive channel is already open.
    pub channel_open: bool,
    /// Whether the first successful PTY request released the deferred
    /// initial geometry.
    pub init_dims_sent: bool,
    /// The most recently negotiated geometry.
    pub geometry: Option<Geometry>,
}

impl SshSession {
    /// A fresh session: capability model unprobed, no channel yet, the
    /// initial geometry still deferred.
    pub fn new() -> (r: SshSession)
        ensures
            r.terminal_info.spec_kind() == TerminalKind::Unsupported(UnsupportedReason::Unprobed),
            r.terminal_info.spec_font_size() is None,
            r.app_available,
            !r.channel_open,
            !r.init_dims_sent,
            r.geometry is None,
    {
        SshSession {
            terminal_info: TerminalInfo::default(),
            app_available: true,
            channel_open: false,
            init_dims_sent: false,
            geometry: Option::None,
        }
    }

    /// Authenticate a peer: every identity is accepted, with no
    /// credential check.
    pub fn auth_none(&self, _user: &str) -> (r: Auth)
        ensures
            r == Auth::Accept,
    {
        Auth::Accept
    }

    /// Open the interactive channel: accepted exactly once per session;
    /// a second open request is rejected with a protocol-level error, as
    /// is any open when the application state machine is unavailable.
    pub fn channel_open_session(&mut self) -> (r: Result<bool, SessionError>)
        ensures
            old(self).app_available && !old(self).channel_open ==> r == Ok::<bool, SessionError>(
                true,
            ) && final(self).channel_open,
            old(self).app_available && old(self).channel_open ==> r == Err::<bool, SessionError>(
                SessionError::ChannelQuotaExceeded,
            ) && final(self).channel_open == old(self).channel_open,
            !old(self).app_available ==> r == Err::<bool, SessionError>(
                SessionError::AppUnavailable,
            ) && final(self).channel_open == old(self).channel_open,
            final(self).terminal_info == old(self).terminal_info,
            final(self).app_available == old(self).app_available,
            final(self).init_dims_sent == old(self).init_dims_sent,
            final(self).geometry == old(self).geometry,
    {
        if !self.app_available {
            Err(SessionError::AppUnavailable)
        } else if self.channel_open {
            Err(SessionError::ChannelQuotaExceeded)
        } else {
            self.channel_open = true;
            Ok(true)
        }
    }

    /// Negotiate one environment variable: the variable naming the
    /// client's terminal program selects the capability model's kind
    /// through its write-once writer; every other variable is ignored.
    pub fn env_request(&mut self, variable_name: &str, variable_value: &str)
        ensures
            final(self).terminal_info.spec_kind() == if variable_name@ == "TERM_PROGRAM"@ {
                spec_set_kind(
                    old(self).terminal_info.spec_kind(),
                    spec_from_term_program(variable_value@),
                )
            } else {
                old(self).terminal_info.spec_kind()
            },
            final(self).terminal_info.spec_font_size() == old(self).terminal_info.spec_font_size(),
            final(self).app_available == old(self).app_available,
            final(self).channel_open == old(self).channel_open,
            final(self).init_dims_sent == old(self).init_dims_sent,
            final(self).geometry == old(self).geometry,
    {
        if str_eq(variable_name, "TERM_PROGRAM") {
            self.terminal_info.set_kind(TerminalKind::from_term_program(variable_value));
        }
    }

    /// Handle a PTY request. Font metrics are derived first: with both
    /// pixel dimensions nonzero the per-cell metric is pixel size over
    /// character size, and a metric too large for a cell is rejected;
    /// with either zero the capability model is marked unsized. Then the
    /// terminal type must name the xterm family, else the channel fails
    /// with no geometry released and no state machine started. The first
    /// successful request releases the deferred initial geometry; the
    /// request is acknowledged only after that.
    pub fn pty_request(
        &mut self,
        term: &str,
        col_width: u32,
        row_height: u32,
        pix_width: u32,
        pix_height: u32,
    ) -> (r: Result<PtyAccept, SessionError>)
        requires
            pix_width != 0 && pix_height != 0 ==> col_width != 0 && row_height != 0,
        ensures
            ({
                let sized = pix_width != 0 && pix_height != 0;
                let qw = pix_width / col_width;
                let qh = pix_height / row_height;
                let geom = Geometry {
                    cols: col_width as u16,
                    rows: row_height as u16,
                    pixel_width: pix_width as u16,
                    pixel_height: pix_height as u16,
                };
                if sized && qw > u16::MAX as u32 {
                    r == Err::<PtyAccept, SessionError>(SessionError::TerminalTooWide) && final(self).terminal_info == old(self).terminal_info && final(self).init_dims_sent == old(self).init_dims_sent && final(self).geometry == old(self).geometry
                } else if sized && qh > u16::MAX as u32 {
                    r == Err::<PtyAccept, SessionError>(SessionError::TerminalTooTall) && final(self).terminal_info == old(self).terminal_info && final(self).init_dims_sent == old(self).init_dims_sent && final(self).geometry == old(self).geometry
                } else {
                    ({
                        // capability model update: metrics when sized, unsized mark when not
                        if sized {
                            final(self).terminal_info.spec_font_size() == Option::Some(
                                (qw as u16, qh as u16),
                            ) && final(self).terminal_info.spec_kind() == old(self).terminal_info.spec_kind()
                        } else {
                            final(self).terminal_info.spec_kind() == spec_set_kind(
                                old(self).terminal_info.spec_kind(),
                                TerminalKind::Unsupported(UnsupportedReason::Unsized),
                            ) && final(self).terminal_info.spec_font_size() == old(self).terminal_info.spec_font_size()
                        }
                    }) && ({
                        if !spec_contains(term@, "xterm"@) {
                            r == Err::<PtyAccept, SessionError>(SessionError::UnsupportedTerminal)
                                && final(self).init_dims_sent == old(self).init_dims_sent && final(self).geometry == old(self).geometry
                        } else {
                            r == Ok::<PtyAccept, SessionError>(
                                PtyAccept {
                                    init_geometry: if old(self).init_dims_sent {
                                        Option::None
                                    } else {
                                        Option::Some(geom)
                                    },
                                },
                            ) && final(self).init_dims_sent && final(self).geometry
                                == Option::Some(geom)
                        }
                    })
                }
            }),
            final(self).app_available == old(self).app_available,
            final(self).channel_open == old(self).channel_open,
    {
        if pix_width != 0 && pix_height != 0 {
            let qw = pix_width / col_width;
            let qh = pix_height / row_height;
            if qw > u16::MAX as u32 {
                return Err(SessionError::TerminalTooWide);
            }
            if qh > u16::MAX as u32 {
                return Err(SessionError::TerminalTooTall);
            }
            self.terminal_info.set_font_size((qw as u16, qh as u16));
        } else {
            self.terminal_info.set_kind(TerminalKind::Unsupported(UnsupportedReason::Unsized));
        }
        if !str_contains(term, "xterm") {
            return Err(SessionError::UnsupportedTerminal);
        }
        let geom = Geometry {
            cols: #[verifier::truncate] (col_width as u16),
            rows: #[verifier::truncate] (row_height as u16),
            pixel_width: #[verifier::truncate] (pix_width as u16),
            pixel_height: #[verifier::truncate] (pix_height as u16),
        };
        let released = if !self.init_dims_sent {
            Option::Some(geom)
        } else {
            Option::None
        };
        self.init_dims_sent = true;
        self.geometry = Option::Some(geom);
        Ok(PtyAccept { init_geometry: released })
    }

    /// Decode one inbound data payload into the key event it carries;
    /// never blocks and never fails, unrecognized bytes degrading to the
    /// null key.
    pub fn data(&self, data: &[u8]) -> (r: KeyEvent)
        ensures
            r == spec_key_event_of(spec_key_of_seq(data@)),
    {
        KeyCode::from_xterm_seq(data).into_key_event()
    }

    /// Handle a window change: recompute the per-cell font metrics,
    /// update the negotiated geometry, and hand back the resize action
    /// to emit into the running session — the only path by which
    /// geometry changes after initial negotiation.
    pub fn window_change_request(
        &mut self,
        col_width: u32,
        row_height: u32,
        pix_width: u32,
        pix_height: u32,
    ) -> (r: Result<Action, SessionError>)
        requires
            col_width != 0,
            row_height != 0,
        ensures
            ({
                let qw = pix_width / col_width;
                let qh = pix_height / row_height;
                let geom = Geometry {
                    cols: col_width as u16,
                    rows: row_height as u16,
                    pixel_width: pix_width as u16,
                    pixel_height: pix_height as u16,
                };
                if qw > u16::MAX as u32 {
                    r == Err::<Action, SessionError>(SessionError::TerminalTooWide) && final(self).terminal_info == old(self).terminal_info && final(self).geometry == old(self).geometry
                } else if qh > u16::MAX as u32 {
                    r == Err::<Action, SessionError>(SessionError::TerminalTooTall) && final(self).terminal_info == old(self).terminal_info && final(self).geometry == old(self).geometry
                } else {
                    r == Ok::<Action, SessionError>(Action::Resize(geom.cols, geom.rows)) && final(self).terminal_info.spec_font_size() == Option::Some((qw as u16, qh as u16))
                        && final(self).terminal_info.spec_kind() == old(self).terminal_info.spec_kind() && final(self).geometry == Option::Some(geom)
                }
            }),
            final(self).app_available == old(self).app_available,
            final(self).channel_open == old(self).channel_open,
            final(self).init_dims_sent == old(self).init_dims_sent,
    {
        let qw = pix_width / col_width;
        let qh = pix_height / row_height;
        if qw > u16::MAX as u32 {
            return Err(SessionError::TerminalTooWide);
        }
        if qh > u16::MAX as u32 {
            return Err(SessionError::TerminalTooTall);
        }
        self.terminal_info.set_font_size((qw as u16, qh as u16));
        let geom = Geometry {
            cols: #[verifier::truncate] (col_width as u16),
            rows: #[verifier::truncate] (row_height as u16),
            pixel_width: #[verifier::truncate] (pix_width as u16),
            pixel_height: #[verifier::truncate] (pix_height as u16),
        };
        self.geometry = Option::Some(geom);
        Ok(Action::Resize(geom.cols, geom.rows))
    }
}

/// The session acceptor: instantiates one protocol handler per accepted
/// peer. Binding the listening socket and driving connections is the
/// embedding runtime's part.
#[derive(Debug, Default)]
pub struct SshServer;

impl SshServer {
    /// A fresh handler for one newly accepted peer.
    pub fn new_client(&mut self) -> (r: SshSession)
        ensures
            r.terminal_info.spec_kind() == TerminalKind::Unsupported(UnsupportedReason::Unprobed),
            r.terminal_info.spec_font_size() is None,
            r.app_available,
            !r.channel_open,
            !r.init_dims_sent,
            r.geometry is None,
    {
        SshSession::new()
    }
}

} // verus!
