//! The state controller: what the application knows, the events that reach
//! it, and the transition that folds one event into the state.

use vstd::prelude::*;
use vstd::string::StringExecFns;

verus! {

/// What the application shows of itself.
#[derive(Debug, Clone, PartialEq, Eq)]
pub struct ApplicationState {
    /// The pending updates in words; empty until the first check has
    /// completed.
    pub update_summary: String,
    /// How the last operation ended, or what is going on now.
    pub status_message: String,
    /// Whether an upgrade has been scheduled and not yet completed.
    pub is_upgrading: bool,
}

/// An `ApplicationState` as a mathematical value.
pub struct StateView {
    pub update_summary: Seq<char>,
    pub status_message: Seq<char>,
    pub is_upgrading: bool,
}

impl View for ApplicationState {
    type V = StateView;

    open spec fn view(&self) -> StateView {
        StateView {
            update_summary: self.update_summary@,
            status_message: self.status_message@,
            is_upgrading: self.is_upgrading,
        }
    }
}

/// What can happen to the application: a request of the user, or the end of
/// an action that ran outside.
#[derive(Debug, Clone, PartialEq, Eq)]
pub enum Event {
    /// The user asks for a check.
    RequestCheck,
    /// A check has ended, with this summary.
    CheckCompleted(String),
    /// The user asks for an upgrade.
    RequestUpgrade,
    /// An upgrade has ended, with this message.
    UpgradeCompleted(String),
}

/// An `Event` as a mathematical value.
pub enum EventView {
    RequestCheck,
    CheckCompleted(Seq<char>),
    RequestUpgrade,
    UpgradeCompleted(Seq<char>),
}

impl View for Event {
    type V = EventView;

    open spec fn view(&self) -> EventView {
        match self {
            Event::RequestCheck => EventView::RequestCheck,
            Event::CheckCompleted(text) => EventView::CheckCompleted(text@),
            Event::RequestUpgrade => EventView::RequestUpgrade,
            Event::UpgradeCompleted(text) => EventView::UpgradeCompleted(text@),
        }
    }
}

/// Work that the controller asks to have done outside; its end comes back as
/// an event.
#[derive(Debug, Clone, Copy, PartialEq, Eq, Structural)]
pub enum Action {
    /// Ask the package manager which updates are pending.
    CheckForUpdates,
    /// Have the package manager upgrade the system.
    PerformUpgrade,
}

/// The state at startup: nothing checked, nothing said, no upgrade under way.
pub open spec fn initial_state() -> StateView {
    StateView { update_summary: Seq::empty(), status_message: Seq::empty(), is_upgrading: false }
}

/// The status shown while an upgrade runs.
pub open spec fn upgrading_message() -> Seq<char> {
    "Upgrading packages..."@
}

/// The state after `event` has been folded into `state`.
pub open spec fn next_state(state: StateView, event: EventView) -> StateView {
    match event {
        EventView::RequestCheck => state,
        EventView::CheckCompleted(text) => StateView { update_summary: text, ..state },
        EventView::RequestUpgrade => if state.is_upgrading {
            state
        } else {
            StateView { status_message: upgrading_message(), is_upgrading: true, ..state }
        },
        EventView::UpgradeCompleted(text) => StateView {
            status_message: text,
            is_upgrading: false,
            ..state
        },
    }
}

/// The action that `event` schedules when it reaches `state`, if any.
pub open spec fn scheduled(state: StateView, event: EventView) -> Option<Action> {
    match event {
        EventView::RequestCheck => Some(Action::CheckForUpdates),
        EventView::CheckCompleted(_) => None,
        EventView::RequestUpgrade => if state.is_upgrading {
            None
        } else {
            Some(Action::PerformUpgrade)
        },
        EventView::UpgradeCompleted(_) => Some(Action::CheckForUpdates),
    }
}

impl ApplicationState {
    /// The state at startup.
    pub fn new() -> (state: ApplicationState)
        ensures
            state@ == initial_state(),
    {
        ApplicationState {
            update_summary: String::new(),
            status_message: String::new(),
            is_upgrading: false,
        }
    }
}

impl Default for ApplicationState {
    fn default() -> (state: ApplicationState)
        ensures
            state@ == initial_state(),
    {
        ApplicationState::new()
    }
}

/// The application as it starts: the initial state, and the first check,
/// which is scheduled without anyone asking.
pub fn startup() -> (r: (ApplicationState, Action))
    ensures
        r.0@ == initial_state(),
        r.1 == Action::CheckForUpdates,
        Some(r.1) == scheduled(initial_state(), EventView::RequestCheck),
{
    (ApplicationState::new(), Action::CheckForUpdates)
}

/// Folds `event` into `state`: returns the new state and the action to
/// schedule, if any. It does nothing else.
pub fn apply(state: ApplicationState, event: Event) -> (r: (ApplicationState, Option<Action>))
    ensures
        r.0@ == next_state(state@, event@),
        r.1 == scheduled(state@, event@),
        event is RequestCheck ==> r.0@ == state@ && r.1 == Some(Action::CheckForUpdates),
        event matches Event::CheckCompleted(text) ==> r.0@ == (StateView {
            update_summary: text@,
            ..state@
        }) && r.1 is None,
        event is RequestUpgrade && state.is_upgrading ==> r.0@ == state@ && r.1 is None,
        event is RequestUpgrade && !state.is_upgrading ==> r.0@ == (StateView {
            status_message: upgrading_message(),
            is_upgrading: true,
            ..state@
        }) && r.1 == Some(Action::PerformUpgrade),
        event matches Event::UpgradeCompleted(text) ==> r.0@ == (StateView {
            status_message: text@,
            is_upgrading: false,
            ..state@
        }) && r.1 == Some(Action::CheckForUpdates),
{
    let mut state = state;
    match event {
        Event::RequestCheck => (state, Some(Action::CheckForUpdates)),
        Event::CheckCompleted(text) => {
            state.update_summary = text;
            (state, None)
        },
        Event::RequestUpgrade => {
            if state.is_upgrading {
                (state, None)
            } else {
                state.is_upgrading = true;
                state.status_message = String::from_str("Upgrading packages...");
                (state, Some(Action::PerformUpgrade))
            }
        },
        Event::UpgradeCompleted(text) => {
            state.is_upgrading = false;
            state.status_message = text;
            (state, Some(Action::CheckForUpdates))
        },
    }
}

} // verus!
