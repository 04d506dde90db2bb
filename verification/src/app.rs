//! The application state machine: owns the component registry and the
//! runtime-level policy — the quit and suspend flags, the minimum-size
//! floor with its degraded rendering, and the multi-key chord buffer that
//! every tick clears.

use vstd::prelude::*;
use vstd::string::*;

use crate::action::Action;
use crate::backend::Size;
use crate::keycode::KeyEvent;
use crate::strutil::{spec_dec, u16_to_string};
use crate::tui::Event;

verus! {

/// Narrowest terminal width the content layout supports.
pub const MIN_TUI_WIDTH: u16 = 105;

/// Shortest terminal height the content layout supports.
pub const MIN_TUI_HEIGHT: u16 = 25;

/// Height of the degraded-size error panel, border included.
pub const ERROR_PANEL_HEIGHT: u16 = 5;

/// The input mode keybindings are looked up under.
#[derive(Debug, Clone, Copy, PartialEq, Eq, Hash, Structural)]
pub enum Mode {
    Home,
}

impl Default for Mode {
    fn default() -> (r: Self)
        ensures
            r == Mode::Home,
    {
        Mode::Home
    }
}

/// A rectangular region of the screen, in character cells.
#[derive(Debug, Clone, Copy, PartialEq, Eq, Structural)]
pub struct Rect {
    pub x: u16,
    pub y: u16,
    pub width: u16,
    pub height: u16,
}

/// What the runtime itself must do for one applied action, beyond the
/// state recorded in the flags.
#[derive(Debug, Clone, Copy, PartialEq, Eq, Structural)]
pub enum RuntimeEffect {
    Nothing,
    ClearScreen,
    Resize(u16, u16),
    Render,
}

/// Whether the draw pass renders normal content or only the centered
/// degraded-size panel.
#[derive(Debug, Clone, Copy, PartialEq, Eq, Structural)]
pub enum RenderPass {
    Degraded,
    Normal,
}

/// What the run loop does after draining the action queue.
#[derive(Debug, Clone, Copy, PartialEq, Eq, Structural)]
pub enum LoopCtl {
    Continue,
    BeginSuspend,
    EndSuspend,
    Quit,
}

/// The first keybinding whose key sequence equals `keys`, if any.
pub open spec fn spec_keymap_lookup(
    bindings: Seq<(Vec<KeyEvent>, Action)>,
    keys: Seq<KeyEvent>,
) -> Option<Action>
    decreases bindings.len(),
{
    if bindings.len() == 0 {
        Option::None
    } else if bindings[0].0@ == keys {
        Option::Some(bindings[0].1)
    } else {
        spec_keymap_lookup(bindings.drop_first(), keys)
    }
}

proof fn lemma_keymap_lookup_skip(
    bindings: Seq<(Vec<KeyEvent>, Action)>,
    keys: Seq<KeyEvent>,
    i: int,
)
    requires
        0 <= i <= bindings.len(),
        forall|j: int| 0 <= j < i ==> #[trigger] bindings[j].0@ != keys,
    ensures
        spec_keymap_lookup(bindings, keys) == spec_keymap_lookup(bindings.skip(i), keys),
    decreases i,
{
    if i > 0 {
        assert(bindings[0].0@ != keys);
        assert(bindings.drop_first() =~= bindings.skip(1));
        lemma_keymap_lookup_skip(bindings.skip(1), keys, i - 1);
        assert(bindings.skip(1).skip(i - 1) =~= bindings.skip(i));
    } else {
        assert(bindings.skip(0) =~= bindings);
    }
}

/// Element-wise equality of two key sequences.
fn keyseq_eq(a: &Vec<KeyEvent>, b: &Vec<KeyEvent>) -> (r: bool)
    ensures
        r == (a@ == b@),
{
    if a.len() != b.len() {
        return false;
    }
    let mut i: usize = 0;
    while i < a.len()
        invariant
            i <= a@.len(),
            a@.len() == b@.len(),
            forall|j: int| 0 <= j < i ==> a@[j] == b@[j],
        decreases a@.len() - i,
    {
        if a[i] != b[i] {
            return false;
        }
        i += 1;
    }
    proof {
        assert(a@ =~= b@);
    }
    true
}

/// Look a key sequence up in the keybinding table.
fn keymap_get(bindings: &Vec<(Vec<KeyEvent>, Action)>, keys: &Vec<KeyEvent>) -> (r: Option<
    Action,
>)
    ensures
        r == spec_keymap_lookup(bindings@, keys@),
{
    let mut i: usize = 0;
    while i < bindings.len()
        invariant
            i <= bindings@.len(),
            forall|j: int| 0 <= j < i ==> #[trigger] bindings@[j].0@ != keys@,
        decreases bindings@.len() - i,
    {
        if keyseq_eq(&bindings[i].0, keys) {
            let r = Option::Some(bindings[i].1.clone());
            proof {
                lemma_keymap_lookup_skip(bindings@, keys@, i as int);
                assert(bindings@.skip(i as int)[0] == bindings@[i as int]);
            }
            return r;
        }
        i += 1;
    }
    proof {
        lemma_keymap_lookup_skip(bindings@, keys@, bindings@.len() as int);
        assert(bindings@.skip(bindings@.len() as int) =~= Seq::<(Vec<KeyEvent>, Action)>::empty());
    }
    Option::None
}

/// The runtime-level action an event on the merged stream maps to; key
/// events go through the keybinding path instead, and the rest dispatch
/// to components only.
pub open spec fn spec_action_for_event(e: Event) -> Option<Action> {
    match e {
        Event::Quit => Option::Some(Action::Quit),
        Event::Tick => Option::Some(Action::Tick),
        Event::Render => Option::Some(Action::Render),
        Event::Resize(x, y) => Option::Some(Action::Resize(x, y)),
        _ => Option::None,
    }
}

/// The degraded-size message: the required floor and the actual size.
pub open spec fn spec_size_error_message(w: u16, h: u16) -> Seq<char> {
    "window size must be at least "@ + spec_dec(MIN_TUI_WIDTH as int) + seq!['x'] + spec_dec(
        MIN_TUI_HEIGHT as int,
    ) + ", currently "@ + spec_dec(w as int) + seq!['x'] + spec_dec(h as int)
}

/// Where the degraded-size panel lands: a panel of the message's width,
/// five rows tall, centered in the frame, clamped to the frame, shrunk
/// by one cell on each side for its border.
pub open spec fn spec_error_panel_area(size: Size, error_width: u16) -> Rect {
    let x0: u16 = if size.width >= error_width {
        ((size.width - error_width) / 2) as u16
    } else {
        0u16
    };
    let y0: u16 = if size.height >= ERROR_PANEL_HEIGHT {
        ((size.height - ERROR_PANEL_HEIGHT) / 2) as u16
    } else {
        0u16
    };
    let w0: u16 = if error_width > size.width {
        0u16
    } else {
        error_width
    };
    let h0: u16 = if size.height > ERROR_PANEL_HEIGHT {
        ERROR_PANEL_HEIGHT
    } else {
        size.height
    };
    Rect {
        x: (x0 + 1) as u16,
        y: (y0 + 1) as u16,
        width: if w0 >= 2 {
            (w0 - 2) as u16
        } else {
            0u16
        },
        height: if h0 >= 2 {
            (h0 - 2) as u16
        } else {
            0u16
        },
    }
}

/// The application state machine for one session.
pub struct App {
    /// Ticks per second handed to the scheduler.
    pub tick_rate: u32,
    /// Frames per second handed to the scheduler.
    pub frame_rate: u32,
    /// The session asked to end.
    pub should_quit: bool,
    /// The session asked to suspend.
    pub should_suspend: bool,
    /// The geometry is below the minimum-size floor.
    pub needs_resize: bool,
    /// The input mode bindings are looked up under.
    pub mode: Mode,
    /// The rolling multi-key chord buffer, cleared on every tick.
    pub last_tick_key_events: Vec<KeyEvent>,
    /// Key sequences and the actions they are bound to, in lookup order.
    pub keybindings: Vec<(Vec<KeyEvent>, Action)>,
    /// How many components are registered; dispatch order is by index.
    pub components: usize,
}

impl App {
    /// A fresh state machine: nothing requested, empty chord buffer, no
    /// bindings and no components yet.
    pub fn new(tick_rate: u32, frame_rate: u32) -> (r: App)
        ensures
            r.tick_rate == tick_rate,
            r.frame_rate == frame_rate,
            !r.should_quit,
            !r.should_suspend,
            !r.needs_resize,
            r.mode == Mode::Home,
            r.last_tick_key_events@ == Seq::<KeyEvent>::empty(),
            r.keybindings@ == Seq::<(Vec<KeyEvent>, Action)>::empty(),
            r.components == 0,
    {
        App {
            tick_rate,
            frame_rate,
            should_quit: false,
            should_suspend: false,
            needs_resize: false,
            mode: Mode::Home,
            last_tick_key_events: Vec::new(),
            keybindings: Vec::new(),
            components: 0,
        }
    }

    /// Register one more component; components are dispatched to in
    /// registration order, and the returned index addresses this one.
    pub fn register_component(&mut self) -> (idx: usize)
        requires
            old(self).components < usize::MAX,
        ensures
            idx == old(self).components,
            final(self).components == old(self).components + 1,
            final(self).tick_rate == old(self).tick_rate,
            final(self).frame_rate == old(self).frame_rate,
            final(self).should_quit == old(self).should_quit,
            final(self).should_suspend == old(self).should_suspend,
            final(self).needs_resize == old(self).needs_resize,
            final(self).mode == old(self).mode,
            final(self).last_tick_key_events@ == old(self).last_tick_key_events@,
            final(self).keybindings@ == old(self).keybindings@,
    {
        let idx = self.components;
        self.components = self.components + 1;
        idx
    }

    /// Bind a key sequence to an action; earlier bindings take priority.
    pub fn register_keybinding(&mut self, keys: Vec<KeyEvent>, action: Action)
        ensures
            final(self).keybindings@ == old(self).keybindings@.push((keys, action)),
            final(self).tick_rate == old(self).tick_rate,
            final(self).frame_rate == old(self).frame_rate,
            final(self).should_quit == old(self).should_quit,
            final(self).should_suspend == old(self).should_suspend,
            final(self).needs_resize == old(self).needs_resize,
            final(self).mode == old(self).mode,
            final(self).last_tick_key_events@ == old(self).last_tick_key_events@,
            final(self).components == old(self).components,
    {
        self.keybindings.push((keys, action));
    }

    /// The runtime-level action one event maps to.
    pub fn action_for_event(&self, event: &Event) -> (r: Option<Action>)
        ensures
            r == spec_action_for_event(*event),
    {
        match event {
            Event::Quit => Option::Some(Action::Quit),
            Event::Tick => Option::Some(Action::Tick),
            Event::Render => Option::Some(Action::Render),
            Event::Resize(x, y) => Option::Some(Action::Resize(*x, *y)),
            _ => Option::None,
        }
    }

    /// Handle one keystroke: a single-key binding fires directly; an
    /// unbound key is appended to the rolling chord buffer, which is then
    /// tested against the multi-key bindings. The buffer is cleared on
    /// every tick, bounding chord detection to one tick interval.
    pub fn handle_key_event(&mut self, key: KeyEvent) -> (r: Option<Action>)
        ensures
            ({
                let single = spec_keymap_lookup(old(self).keybindings@, seq![key]);
                if single is Some {
                    r == single && final(self).last_tick_key_events@ == old(
                        self,
                    ).last_tick_key_events@
                } else {
                    final(self).last_tick_key_events@ == old(self).last_tick_key_events@.push(key)
                        && r == spec_keymap_lookup(
                        old(self).keybindings@,
                        old(self).last_tick_key_events@.push(key),
                    )
                }
            }),
            final(self).keybindings@ == old(self).keybindings@,
            final(self).should_quit == old(self).should_quit,
            final(self).should_suspend == old(self).should_suspend,
            final(self).needs_resize == old(self).needs_resize,
            final(self).mode == old(self).mode,
            final(self).components == old(self).components,
            final(self).tick_rate == old(self).tick_rate,
            final(self).frame_rate == old(self).frame_rate,
    {
        let mut single: Vec<KeyEvent> = Vec::new();
        single.push(key);
        proof {
            assert(single@ =~= seq![key]);
        }
        let direct = keymap_get(&self.keybindings, &single);
        match direct {
            Option::Some(action) => Option::Some(action),
            Option::None => {
                self.last_tick_key_events.push(key);
                keymap_get(&self.keybindings, &self.last_tick_key_events)
            },
        }
    }

    /// Apply one action to the runtime state: tick clears the chord
    /// buffer; quit, suspend and resume set their flags; a resize records
    /// whether the new geometry is below the minimum-size floor; clear,
    /// resize and render are handed back as effects for the draw side.
    pub fn apply_action(&mut self, action: &Action) -> (e: RuntimeEffect)
        ensures
            final(self).should_quit == if action is Quit {
                true
            } else {
                old(self).should_quit
            },
            final(self).should_suspend == if action is Suspend {
                true
            } else if action is Resume {
                false
            } else {
                old(self).should_suspend
            },
            final(self).needs_resize == match *action {
                Action::Resize(w, h) => w < MIN_TUI_WIDTH || h < MIN_TUI_HEIGHT,
                _ => old(self).needs_resize,
            },
            final(self).last_tick_key_events@ == if action is Tick {
                Seq::<KeyEvent>::empty()
            } else {
                old(self).last_tick_key_events@
            },
            e == match *action {
                Action::ClearScreen => RuntimeEffect::ClearScreen,
                Action::Resize(w, h) => RuntimeEffect::Resize(w, h),
                Action::Render => RuntimeEffect::Render,
                _ => RuntimeEffect::Nothing,
            },
            final(self).keybindings@ == old(self).keybindings@,
            final(self).mode == old(self).mode,
            final(self).components == old(self).components,
            final(self).tick_rate == old(self).tick_rate,
            final(self).frame_rate == old(self).frame_rate,
    {
        match action {
            Action::Tick => {
                self.last_tick_key_events.clear();
                RuntimeEffect::Nothing
            },
            Action::Quit => {
                self.should_quit = true;
                RuntimeEffect::Nothing
            },
            Action::Suspend => {
                self.should_suspend = true;
                RuntimeEffect::Nothing
            },
            Action::Resume => {
                self.should_suspend = false;
                RuntimeEffect::Nothing
            },
            Action::ClearScreen => RuntimeEffect::ClearScreen,
            Action::Resize(w, h) => {
                self.needs_resize = *w < MIN_TUI_WIDTH || *h < MIN_TUI_HEIGHT;
                RuntimeEffect::Resize(*w, *h)
            },
            Action::Render => RuntimeEffect::Render,
            _ => RuntimeEffect::Nothing,
        }
    }

    /// The component indices one action is forwarded to: every registered
    /// component exactly once, in registration order.
    pub fn dispatch_targets(&self) -> (r: Vec<usize>)
        ensures
            r@.len() == self.components,
            forall|i: int| 0 <= i < r@.len() ==> r@[i] == i,
    {
        let mut r: Vec<usize> = Vec::new();
        let mut i: usize = 0;
        while i < self.components
            invariant
                i <= self.components,
                r@.len() == i,
                forall|j: int| 0 <= j < i ==> r@[j] == j,
            decreases self.components - i,
        {
            r.push(i);
            i += 1;
        }
        r
    }

    /// Whether the draw pass renders normal content or only the
    /// degraded-size panel; recovery is automatic, by the next resize
    /// meeting the floor.
    pub fn render_pass(&self) -> (r: RenderPass)
        ensures
            r == if self.needs_resize {
                RenderPass::Degraded
            } else {
                RenderPass::Normal
            },
    {
        if self.needs_resize {
            RenderPass::Degraded
        } else {
            RenderPass::Normal
        }
    }

    /// What the run loop does next, given whether a suspension episode
    /// is in progress: a requested suspend begins one, a second request
    /// while suspended resumes, a requested quit stops the loop.
    pub fn loop_ctl(&self, suspended: bool) -> (r: LoopCtl)
        ensures
            r == if self.should_suspend {
                if suspended {
                    LoopCtl::EndSuspend
                } else {
                    LoopCtl::BeginSuspend
                }
            } else if self.should_quit {
                LoopCtl::Quit
            } else {
                LoopCtl::Continue
            },
    {
        if self.should_suspend {
            if suspended {
                LoopCtl::EndSuspend
            } else {
                LoopCtl::BeginSuspend
            }
        } else if self.should_quit {
            LoopCtl::Quit
        } else {
            LoopCtl::Continue
        }
    }
}

/// Render the degraded-size message for an actual geometry.
pub fn size_error_message(w: u16, h: u16) -> (r: String)
    ensures
        r@ == spec_size_error_message(w, h),
{
    let mut s = "window size must be at least ".to_owned();
    let min_w = u16_to_string(MIN_TUI_WIDTH);
    s.append(min_w.as_str());
    s.append("x");
    let min_h = u16_to_string(MIN_TUI_HEIGHT);
    s.append(min_h.as_str());
    s.append(", currently ");
    let cur_w = u16_to_string(w);
    s.append(cur_w.as_str());
    s.append("x");
    let cur_h = u16_to_string(h);
    s.append(cur_h.as_str());
    proof {
        reveal_strlit("x");
        assert("x"@ =~= seq!['x']);
        assert(s@ =~= spec_size_error_message(w, h));
    }
    s
}

/// Compute where the degraded-size panel lands in a frame.
pub fn error_panel_area(size: Size, error_width: u16) -> (r: Rect)
    ensures
        r == spec_error_panel_area(size, error_width),
{
    let x0: u16 = if size.width >= error_width {
        (size.width - error_width) / 2
    } else {
        0
    };
    let y0: u16 = if size.height >= ERROR_PANEL_HEIGHT {
        (size.height - ERROR_PANEL_HEIGHT) / 2
    } else {
        0
    };
    let w0: u16 = if error_width > size.width {
        0
    } else {
        error_width
    };
    let h0: u16 = if size.height > ERROR_PANEL_HEIGHT {
        ERROR_PANEL_HEIGHT
    } else {
        size.height
    };
    Rect {
        x: x0 + 1,
        y: y0 + 1,
        width: if w0 >= 2 {
            w0 - 2
        } else {
            0
        },
        height: if h0 >= 2 {
            h0 - 2
        } else {
            0
        },
    }
}

} // verus!
