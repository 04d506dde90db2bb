//! The closed set of state transitions a component or the runtime can
//! request, and the mapping from configuration names to actions that the
//! keybinding loader relies on.

use vstd::prelude::*;

use crate::strutil::str_eq;

verus! {

/// A runtime-level or application-level event requesting a state
/// transition; consumed by the application state machine in arrival order.
#[derive(Debug, PartialEq, Eq)]
pub enum Action {
    Tick,
    Render,
    Resize(u16, u16),
    Suspend,
    Resume,
    Quit,
    ClearScreen,
    Error(String),
    Help,
    // Tab management
    NextTab,
    PrevTab,
    // Selection management
    SelectNext,
    SelectPrev,
    Continue(Option<usize>),
}

impl Clone for Action {
    fn clone(&self) -> (r: Self)
        ensures
            r == *self,
    {
        match self {
            Action::Tick => Action::Tick,
            Action::Render => Action::Render,
            Action::Resize(w, h) => Action::Resize(*w, *h),
            Action::Suspend => Action::Suspend,
            Action::Resume => Action::Resume,
            Action::Quit => Action::Quit,
            Action::ClearScreen => Action::ClearScreen,
            Action::Error(msg) => Action::Error(msg.clone()),
            Action::Help => Action::Help,
            Action::NextTab => Action::NextTab,
            Action::PrevTab => Action::PrevTab,
            Action::SelectNext => Action::SelectNext,
            Action::SelectPrev => Action::SelectPrev,
            Action::Continue(sel) => Action::Continue(*sel),
        }
    }
}

/// Which action a configuration name denotes: the unit actions under
/// their own names, `Continue` with no payload, and nothing else.
pub open spec fn spec_action_from_name(v: Seq<char>) -> Option<Action> {
    if v == "Continue"@ {
        Option::Some(Action::Continue(Option::None))
    } else if v == "Tick"@ {
        Option::Some(Action::Tick)
    } else if v == "Render"@ {
        Option::Some(Action::Render)
    } else if v == "Suspend"@ {
        Option::Some(Action::Suspend)
    } else if v == "Resume"@ {
        Option::Some(Action::Resume)
    } else if v == "Quit"@ {
        Option::Some(Action::Quit)
    } else if v == "ClearScreen"@ {
        Option::Some(Action::ClearScreen)
    } else if v == "Help"@ {
        Option::Some(Action::Help)
    } else if v == "NextTab"@ {
        Option::Some(Action::NextTab)
    } else if v == "PrevTab"@ {
        Option::Some(Action::PrevTab)
    } else if v == "SelectNext"@ {
        Option::Some(Action::SelectNext)
    } else if v == "SelectPrev"@ {
        Option::Some(Action::SelectPrev)
    } else {
        Option::None
    }
}

impl Action {
    /// Look an action up by its configuration name. Exactly the unit
    /// actions can be named; any other name is rejected.
    pub fn from_name(v: &str) -> (r: Option<Action>)
        ensures
            r == spec_action_from_name(v@),
    {
        if str_eq(v, "Continue") {
            Option::Some(Action::Continue(Option::None))
        } else if str_eq(v, "Tick") {
            Option::Some(Action::Tick)
        } else if str_eq(v, "Render") {
            Option::Some(Action::Render)
        } else if str_eq(v, "Suspend") {
            Option::Some(Action::Suspend)
        } else if str_eq(v, "Resume") {
            Option::Some(Action::Resume)
        } else if str_eq(v, "Quit") {
            Option::Some(Action::Quit)
        } else if str_eq(v, "ClearScreen") {
            Option::Some(Action::ClearScreen)
        } else if str_eq(v, "Help") {
            Option::Some(Action::Help)
        } else if str_eq(v, "NextTab") {
            Option::Some(Action::NextTab)
        } else if str_eq(v, "PrevTab") {
            Option::Some(Action::PrevTab)
        } else if str_eq(v, "SelectNext") {
            Option::Some(Action::SelectNext)
        } else if str_eq(v, "SelectPrev") {
            Option::Some(Action::SelectPrev)
        } else {
            Option::None
        }
    }
}

} // verus!
