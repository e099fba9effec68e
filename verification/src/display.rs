//! What the window shows of a state. Drawing is left to the user interface;
//! the words and the switches are decided here.

use vstd::prelude::*;
use vstd::string::StringExecFns;
use crate::controller::{scheduled, Action, ApplicationState, EventView, StateView};
use crate::runner::no_packages_message;
use crate::text::{chars_of, contains, has_substring};

verus! {

/// The contents of the window.
#[derive(Debug, Clone, PartialEq, Eq)]
pub struct Screen {
    /// The window's title.
    pub title: String,
    /// The text of the scrollable list of updates.
    pub summary: String,
    /// The label of the upgrade button.
    pub button_label: String,
    /// Whether the upgrade button can be pressed.
    pub upgrade_enabled: bool,
    /// The status line.
    pub status: String,
    /// Whether a progress bar stands under the status line.
    pub shows_progress: bool,
}

/// A `Screen` as a mathematical value.
pub struct ScreenView {
    pub title: Seq<char>,
    pub summary: Seq<char>,
    pub button_label: Seq<char>,
    pub upgrade_enabled: bool,
    pub status: Seq<char>,
    pub shows_progress: bool,
}

impl View for Screen {
    type V = ScreenView;

    open spec fn view(&self) -> ScreenView {
        ScreenView {
            title: self.title@,
            summary: self.summary@,
            button_label: self.button_label@,
            upgrade_enabled: self.upgrade_enabled,
            status: self.status@,
            shows_progress: self.shows_progress,
        }
    }
}

/// Whether the user may ask for an upgrade in `state`: not while one is
/// under way, and not when the summary says that no packages are available.
pub open spec fn upgrade_allowed(state: StateView) -> bool {
    !state.is_upgrading && !contains(state.update_summary, no_packages_message())
}

/// What the window shows of `state`. Until the first check has completed the
/// list says that a check is under way.
pub open spec fn screen_of(state: StateView) -> ScreenView {
    ScreenView {
        title: "DNF Updates"@,
        summary: if state.update_summary.len() == 0 {
            "Checking for updates..."@
        } else {
            state.update_summary
        },
        button_label: if state.is_upgrading {
            "Upgrading..."@
        } else {
            "Upgrade Now"@
        },
        upgrade_enabled: upgrade_allowed(state),
        status: state.status_message,
        shows_progress: state.is_upgrading,
    }
}

/// Tests whether the user may ask for an upgrade in `state`.
pub fn can_upgrade(state: &ApplicationState) -> (allowed: bool)
    ensures
        allowed == upgrade_allowed(state@),
        allowed ==> scheduled(state@, EventView::RequestUpgrade) == Some(Action::PerformUpgrade),
{
    if state.is_upgrading {
        false
    } else {
        let summary = chars_of(state.update_summary.as_str());
        let marker = chars_of("No packages available");
        !has_substring(&summary, &marker)
    }
}

/// What the window shows of `state`.
pub fn present(state: &ApplicationState) -> (screen: Screen)
    ensures
        screen@ == screen_of(state@),
        screen.upgrade_enabled ==> scheduled(state@, EventView::RequestUpgrade) == Some(
            Action::PerformUpgrade,
        ),
{
    Screen {
        title: String::from_str("DNF Updates"),
        summary: if state.update_summary.as_str().is_empty() {
            String::from_str("Checking for updates...")
        } else {
            state.update_summary.clone()
        },
        button_label: if state.is_upgrading {
            String::from_str("Upgrading...")
        } else {
            String::from_str("Upgrade Now")
        },
        upgrade_enabled: can_upgrade(state),
        status: state.status_message.clone(),
        shows_progress: state.is_upgrading,
    }
}

} // verus!
