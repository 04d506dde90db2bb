//! The frame scheduler: a per-session engine owning the tick and render
//! cadence, a cancellation flag, a suspend/resume state, and the logical
//! screen mode. Entering and leaving the screen appends the alternate
//! screen and cursor escape sequences to the session's output bridge;
//! whether a timer firing emits an event is decided here, so that a
//! suspended session emits nothing until it is explicitly resumed.

use vstd::prelude::*;

use crossterm::Command;

use crate::backend::SshBackend;
use crate::keycode::KeyEvent;

verus! {

/// A mouse event's position; the transport never delivers these natively.
#[derive(Debug, Clone, Copy, PartialEq, Eq, Structural)]
pub struct MouseEvent {
    pub column: u16,
    pub row: u16,
}

/// An event on the session's single ordered event stream.
#[derive(Debug, PartialEq, Eq)]
pub enum Event {
    Init,
    Quit,
    Error,
    Closed,
    Tick,
    Render,
    FocusGained,
    FocusLost,
    Paste(String),
    Key(KeyEvent),
    Mouse(MouseEvent),
    Resize(u16, u16),
}

impl Clone for Event {
    fn clone(&self) -> (r: Self)
        ensures
            r == *self,
    {
        match self {
            Event::Init => Event::Init,
            Event::Quit => Event::Quit,
            Event::Error => Event::Error,
            Event::Closed => Event::Closed,
            Event::Tick => Event::Tick,
            Event::Render => Event::Render,
            Event::FocusGained => Event::FocusGained,
            Event::FocusLost => Event::FocusLost,
            Event::Paste(s) => Event::Paste(s.clone()),
            Event::Key(k) => Event::Key(*k),
            Event::Mouse(m) => Event::Mouse(*m),
            Event::Resize(w, h) => Event::Resize(*w, *h),
        }
    }
}

/// Whether the scheduler is producing events or parked awaiting a resume.
#[derive(Debug, Clone, Copy, PartialEq, Eq, Structural)]
pub enum TuiStatus {
    Active,
    Suspended,
}

/// Which of the two periodic timers fired.
#[derive(Debug, Clone, Copy, PartialEq, Eq, Structural)]
pub enum TimerFire {
    Tick,
    Render,
}

/// What one firing of a timer leads to: exactly one emitted event while
/// active, nothing while suspended, loop exit once cancelled.
#[derive(Debug, PartialEq, Eq)]
pub enum LoopStep {
    Emit(Event),
    Blocked,
    Stop,
}

/// The ANSI bytes entering the alternate screen: CSI `?1049h`.
pub open spec fn spec_enter_alternate_screen() -> Seq<u8> {
    seq![27u8, 91u8, 63u8, 49u8, 48u8, 52u8, 57u8, 104u8]
}

/// The ANSI bytes leaving the alternate screen: CSI `?1049l`.
pub open spec fn spec_leave_alternate_screen() -> Seq<u8> {
    seq![27u8, 91u8, 63u8, 49u8, 48u8, 52u8, 57u8, 108u8]
}

/// The ANSI bytes hiding the cursor: CSI `?25l`.
pub open spec fn spec_hide_cursor() -> Seq<u8> {
    seq![27u8, 91u8, 63u8, 50u8, 53u8, 108u8]
}

/// The ANSI bytes showing the cursor: CSI `?25h`.
pub open spec fn spec_show_cursor() -> Seq<u8> {
    seq![27u8, 91u8, 63u8, 50u8, 53u8, 104u8]
}

/// The ANSI bytes enabling mouse capture: CSI `?1000h`, `?1002h`,
/// `?1003h`, `?1015h`, `?1006h`.
pub open spec fn spec_enable_mouse_capture() -> Seq<u8> {
    seq![
        27u8, 91u8, 63u8, 49u8, 48u8, 48u8, 48u8, 104u8,
        27u8, 91u8, 63u8, 49u8, 48u8, 48u8, 50u8, 104u8,
        27u8, 91u8, 63u8, 49u8, 48u8, 48u8, 51u8, 104u8,
        27u8, 91u8, 63u8, 49u8, 48u8, 49u8, 53u8, 104u8,
        27u8, 91u8, 63u8, 49u8, 48u8, 48u8, 54u8, 104u8,
    ]
}

/// The ANSI bytes disabling mouse capture, the inverse commands in
/// reverse order: CSI `?1006l`, `?1015l`, `?1003l`, `?1002l`, `?1000l`.
pub open spec fn spec_disable_mouse_capture() -> Seq<u8> {
    seq![
        27u8, 91u8, 63u8, 49u8, 48u8, 48u8, 54u8, 108u8,
        27u8, 91u8, 63u8, 49u8, 48u8, 49u8, 53u8, 108u8,
        27u8, 91u8, 63u8, 49u8, 48u8, 48u8, 51u8, 108u8,
        27u8, 91u8, 63u8, 49u8, 48u8, 48u8, 50u8, 108u8,
        27u8, 91u8, 63u8, 49u8, 48u8, 48u8, 48u8, 108u8,
    ]
}

/// The ANSI bytes enabling bracketed paste: CSI `?2004h`.
pub open spec fn spec_enable_bracketed_paste() -> Seq<u8> {
    seq![27u8, 91u8, 63u8, 50u8, 48u8, 48u8, 52u8, 104u8]
}

/// The ANSI bytes disabling bracketed paste: CSI `?2004l`.
pub open spec fn spec_disable_bracketed_paste() -> Seq<u8> {
    seq![27u8, 91u8, 63u8, 50u8, 48u8, 48u8, 52u8, 108u8]
}

/// Relies on crossterm's `terminal::EnterAlternateScreen` command,
/// whose ANSI form is the CSI sequence `?1049h`.
#[verifier::external_body]
fn ansi_enter_alternate_screen() -> (r: Vec<u8>)
    ensures
        r@ == spec_enter_alternate_screen(),
{
    let mut s = String::new();
    let _ = crossterm::terminal::EnterAlternateScreen.write_ansi(&mut s);
    s.into_bytes()
}

/// Relies on crossterm's `terminal::LeaveAlternateScreen` command,
/// whose ANSI form is the CSI sequence `?1049l`.
#[verifier::external_body]
fn ansi_leave_alternate_screen() -> (r: Vec<u8>)
    ensures
        r@ == spec_leave_alternate_screen(),
{
    let mut s = String::new();
    let _ = crossterm::terminal::LeaveAlternateScreen.write_ansi(&mut s);
    s.into_bytes()
}

/// Relies on crossterm's `cursor::Hide` command, whose ANSI form is the
/// CSI sequence `?25l`.
#[verifier::external_body]
fn ansi_hide_cursor() -> (r: Vec<u8>)
    ensures
        r@ == spec_hide_cursor(),
{
    let mut s = String::new();
    let _ = crossterm::cursor::Hide.write_ansi(&mut s);
    s.into_bytes()
}

/// Relies on crossterm's `cursor::Show` command, whose ANSI form is the
/// CSI sequence `?25h`.
#[verifier::external_body]
fn ansi_show_cursor() -> (r: Vec<u8>)
    ensures
        r@ == spec_show_cursor(),
{
    let mut s = String::new();
    let _ = crossterm::cursor::Show.write_ansi(&mut s);
    s.into_bytes()
}

/// Relies on crossterm's `event::EnableMouseCapture` command, whose ANSI
/// form concatenates the five CSI sequences `?1000h` through `?1006h`.
#[verifier::external_body]
fn ansi_enable_mouse_capture() -> (r: Vec<u8>)
    ensures
        r@ == spec_enable_mouse_capture(),
{
    let mut s = String::new();
    let _ = crossterm::event::EnableMouseCapture.write_ansi(&mut s);
    s.into_bytes()
}

/// Relies on crossterm's `event::DisableMouseCapture` command, whose
/// ANSI form concatenates the five inverse CSI sequences in reverse order.
#[verifier::external_body]
fn ansi_disable_mouse_capture() -> (r: Vec<u8>)
    ensures
        r@ == spec_disable_mouse_capture(),
{
    let mut s = String::new();
    let _ = crossterm::event::DisableMouseCapture.write_ansi(&mut s);
    s.into_bytes()
}

/// Relies on crossterm's `event::EnableBracketedPaste` command, whose
/// ANSI form is the CSI sequence `?2004h`.
#[verifier::external_body]
fn ansi_enable_bracketed_paste() -> (r: Vec<u8>)
    ensures
        r@ == spec_enable_bracketed_paste(),
{
    let mut s = String::new();
    let _ = crossterm::event::EnableBracketedPaste.write_ansi(&mut s);
    s.into_bytes()
}

/// Relies on crossterm's `event::DisableBracketedPaste` command, whose
/// ANSI form is the CSI sequence `?2004l`.
#[verifier::external_body]
fn ansi_disable_bracketed_paste() -> (r: Vec<u8>)
    ensures
        r@ == spec_disable_bracketed_paste(),
{
    let mut s = String::new();
    let _ = crossterm::event::DisableBracketedPaste.write_ansi(&mut s);
    s.into_bytes()
}

/// The bytes entering the screen appends to the output bridge: alternate
/// screen and hidden cursor, plus mouse capture and bracketed paste when
/// those are enabled.
pub open spec fn spec_enter_bytes(mouse: bool, paste: bool) -> Seq<u8> {
    spec_enter_alternate_screen() + spec_hide_cursor() + (if mouse {
        spec_enable_mouse_capture()
    } else {
        Seq::empty()
    }) + (if paste {
        spec_enable_bracketed_paste()
    } else {
        Seq::empty()
    })
}

/// The bytes leaving the screen appends to the output bridge: the enter
/// toggles undone, in reverse order, ending with a visible cursor.
pub open spec fn spec_exit_bytes(mouse: bool, paste: bool) -> Seq<u8> {
    (if paste {
        spec_disable_bracketed_paste()
    } else {
        Seq::empty()
    }) + (if mouse {
        spec_disable_mouse_capture()
    } else {
        Seq::empty()
    }) + spec_leave_alternate_screen() + spec_show_cursor()
}

/// The frame scheduler's state for one session.
#[derive(Debug, Clone, Copy, PartialEq, Eq, Structural)]
pub struct Tui {
    /// Producing events, or parked awaiting a resume.
    pub status: TuiStatus,
    /// Whether the running event loop's cancellation token is cancelled.
    pub cancelled: bool,
    /// The logical screen mode: whether the alternate screen was entered.
    pub screen_entered: bool,
    /// Ticks per second.
    pub tick_rate: u32,
    /// Rendered frames per second.
    pub frame_rate: u32,
    /// Whether mouse capture is negotiated on enter.
    pub mouse: bool,
    /// Whether bracketed paste is negotiated on enter.
    pub paste: bool,
}

/// The logical state after entering the screen: the alternate screen is
/// on and a fresh, uncancelled event loop runs; everything else is kept.
pub open spec fn spec_enter_logical(t: Tui) -> Tui {
    Tui { screen_entered: true, cancelled: false, ..t }
}

/// The logical state after leaving the screen: the loop is cancelled and
/// the alternate screen is off; everything else is kept.
pub open spec fn spec_exit_logical(t: Tui) -> Tui {
    Tui { screen_entered: false, cancelled: true, ..t }
}

/// The logical state after a suspend: left the screen and parked.
pub open spec fn spec_suspend_logical(t: Tui) -> Tui {
    Tui { status: TuiStatus::Suspended, ..spec_exit_logical(t) }
}

/// The logical state after a resume: active again and re-entered.
pub open spec fn spec_resume_logical(t: Tui) -> Tui {
    Tui { status: TuiStatus::Active, ..spec_enter_logical(t) }
}

/// The one event a timer firing emits; tick and render firings are never
/// coalesced, each maps to its own event.
pub open spec fn spec_event_of_timer(fired: TimerFire) -> Event {
    match fired {
        TimerFire::Tick => Event::Tick,
        TimerFire::Render => Event::Render,
    }
}

/// What the event loop does when a timer fires: exit once cancelled,
/// emit nothing while suspended, else emit exactly that timer's event.
pub open spec fn spec_loop_step(t: Tui, fired: TimerFire) -> LoopStep {
    if t.cancelled {
        LoopStep::Stop
    } else if t.status == TuiStatus::Suspended {
        LoopStep::Blocked
    } else {
        LoopStep::Emit(spec_event_of_timer(fired))
    }
}

impl Tui {
    /// A fresh scheduler: active, not yet entered, at the default 4 Hz
    /// tick and 60 Hz render cadence.
    pub fn new() -> (r: Tui)
        ensures
            r == (Tui {
                status: TuiStatus::Active,
                cancelled: false,
                screen_entered: false,
                tick_rate: 4,
                frame_rate: 60,
                mouse: false,
                paste: false,
            }),
    {
        Tui {
            status: TuiStatus::Active,
            cancelled: false,
            screen_entered: false,
            tick_rate: 4,
            frame_rate: 60,
            mouse: false,
            paste: false,
        }
    }

    /// Set the tick rate, in ticks per second.
    pub fn tick_rate(self, tick_rate: u32) -> (r: Self)
        ensures
            r == (Tui { tick_rate, ..self }),
    {
        Tui { tick_rate, ..self }
    }

    /// Set the render rate, in frames per second.
    pub fn frame_rate(self, frame_rate: u32) -> (r: Self)
        ensures
            r == (Tui { frame_rate, ..self }),
    {
        Tui { frame_rate, ..self }
    }

    /// Choose whether mouse capture is negotiated on enter.
    pub fn mouse(self, mouse: bool) -> (r: Self)
        ensures
            r == (Tui { mouse, ..self }),
    {
        Tui { mouse, ..self }
    }

    /// Choose whether bracketed paste is negotiated on enter.
    pub fn paste(self, paste: bool) -> (r: Self)
        ensures
            r == (Tui { paste, ..self }),
    {
        Tui { paste, ..self }
    }

    /// Start the event loop afresh: any earlier loop is cancelled and a
    /// new uncancelled one begins by emitting the returned init event.
    pub fn start(&mut self) -> (e: Event)
        ensures
            *final(self) == (Tui { cancelled: false, ..*old(self) }),
            e == Event::Init,
    {
        self.cancelled = false;
        Event::Init
    }

    /// Cancel the running event loop; the single authoritative shutdown
    /// signal for this session's timers.
    pub fn cancel(&mut self)
        ensures
            *final(self) == (Tui { cancelled: true, ..*old(self) }),
    {
        self.cancelled = true;
    }

    /// Stop the scheduler by cancelling its loop. Waiting for the loop
    /// task to observe the cancellation, and aborting it after a bounded
    /// budget, is the embedding runtime's part.
    pub fn stop(&mut self)
        ensures
            *final(self) == (Tui { cancelled: true, ..*old(self) }),
    {
        self.cancel();
    }

    /// Enter the screen: append the alternate-screen and cursor-hide
    /// toggles (plus mouse and paste, as configured) to the output
    /// bridge, and start the event loop. Idempotent in the logical mode:
    /// entering twice leaves the scheduler exactly where one enter does.
    pub fn enter(&mut self, backend: &mut SshBackend) -> (e: Event)
        requires
            old(backend).wf(),
            old(backend).buffered().len() + spec_enter_bytes(old(self).mouse, old(self).paste).len()
                <= usize::MAX,
        ensures
            *final(self) == spec_enter_logical(*old(self)),
            final(backend).wf(),
            final(backend).buffered() == old(backend).buffered() + spec_enter_bytes(
                old(self).mouse,
                old(self).paste,
            ),
            final(backend).dims == old(backend).dims,
            final(backend).pixel == old(backend).pixel,
            e == Event::Init,
    {
        let alt = ansi_enter_alternate_screen();
        backend.write_bytes(alt.as_slice());
        let hide = ansi_hide_cursor();
        backend.write_bytes(hide.as_slice());
        if self.mouse {
            let on = ansi_enable_mouse_capture();
            backend.write_bytes(on.as_slice());
        }
        if self.paste {
            let on = ansi_enable_bracketed_paste();
            backend.write_bytes(on.as_slice());
        }
        proof {
            assert(final(backend).buffered() =~= old(backend).buffered() + spec_enter_bytes(
                old(self).mouse,
                old(self).paste,
            ));
        }
        self.screen_entered = true;
        self.start()
    }

    /// Leave the screen: cancel the loop and append the disable toggles,
    /// ending with a visible cursor, to the output bridge. The remote
    /// peer reconciles repeated toggles, so leaving twice is safe.
    pub fn exit(&mut self, backend: &mut SshBackend)
        requires
            old(backend).wf(),
            old(backend).buffered().len() + spec_exit_bytes(old(self).mouse, old(self).paste).len()
                <= usize::MAX,
        ensures
            *final(self) == spec_exit_logical(*old(self)),
            final(backend).wf(),
            final(backend).buffered() == old(backend).buffered() + spec_exit_bytes(
                old(self).mouse,
                old(self).paste,
            ),
            final(backend).dims == old(backend).dims,
            final(backend).pixel == old(backend).pixel,
    {
        self.stop();
        if self.paste {
            let off = ansi_disable_bracketed_paste();
            backend.write_bytes(off.as_slice());
        }
        if self.mouse {
            let off = ansi_disable_mouse_capture();
            backend.write_bytes(off.as_slice());
        }
        let leave = ansi_leave_alternate_screen();
        backend.write_bytes(leave.as_slice());
        let show = ansi_show_cursor();
        backend.write_bytes(show.as_slice());
        proof {
            assert(final(backend).buffered() =~= old(backend).buffered() + spec_exit_bytes(
                old(self).mouse,
                old(self).paste,
            ));
        }
        self.screen_entered = false;
    }

    /// Suspend the session: leave the screen and park the scheduler.
    /// While suspended no timer firing emits an event; only an explicit
    /// resume, never a timeout, reactivates it.
    pub fn suspend(&mut self, backend: &mut SshBackend)
        requires
            old(backend).wf(),
            old(backend).buffered().len() + spec_exit_bytes(old(self).mouse, old(self).paste).len()
                <= usize::MAX,
        ensures
            *final(self) == spec_suspend_logical(*old(self)),
            final(backend).wf(),
            final(backend).buffered() == old(backend).buffered() + spec_exit_bytes(
                old(self).mouse,
                old(self).paste,
            ),
            final(backend).dims == old(backend).dims,
            final(backend).pixel == old(backend).pixel,
    {
        self.exit(backend);
        self.status = TuiStatus::Suspended;
    }

    /// Resume a suspended session: reactivate the scheduler and re-enter
    /// the screen, so the next timer firing emits an event again.
    pub fn resume(&mut self, backend: &mut SshBackend) -> (e: Event)
        requires
            old(backend).wf(),
            old(backend).buffered().len() + spec_enter_bytes(old(self).mouse, old(self).paste).len()
                <= usize::MAX,
        ensures
            *final(self) == spec_resume_logical(*old(self)),
            final(backend).wf(),
            final(backend).buffered() == old(backend).buffered() + spec_enter_bytes(
                old(self).mouse,
                old(self).paste,
            ),
            final(backend).dims == old(backend).dims,
            final(backend).pixel == old(backend).pixel,
            e == Event::Init,
    {
        self.status = TuiStatus::Active;
        self.enter(backend)
    }

    /// Decide what one timer firing does in the current state: exactly
    /// one event is emitted per firing while active, none while
    /// suspended, and the loop exits once cancelled.
    pub fn loop_step(&self, fired: TimerFire) -> (r: LoopStep)
        ensures
            r == spec_loop_step(*self, fired),
    {
        if self.cancelled {
            LoopStep::Stop
        } else if matches!(self.status, TuiStatus::Suspended) {
            LoopStep::Blocked
        } else {
            match fired {
                TimerFire::Tick => LoopStep::Emit(Event::Tick),
                TimerFire::Render => LoopStep::Emit(Event::Render),
            }
        }
    }
}

/// Entering the screen is idempotent: entering twice in a row leaves the
/// scheduler in exactly the logical mode one enter establishes.
pub proof fn lemma_enter_idempotent(t: Tui)
    ensures
        spec_enter_logical(spec_enter_logical(t)) == spec_enter_logical(t),
{
}

/// After a suspend no timer firing emits an event, whichever timer
/// fires; and as soon as the session is resumed, the very next firing of
/// either timer emits that timer's event again.
pub proof fn lemma_suspend_resume(t: Tui)
    ensures
        forall|f: TimerFire| !(#[trigger] spec_loop_step(spec_suspend_logical(t), f) is Emit),
        forall|f: TimerFire|
            #[trigger] spec_loop_step(spec_resume_logical(spec_suspend_logical(t)), f)
                == LoopStep::Emit(spec_event_of_timer(f)),
{
}

} // verus!
