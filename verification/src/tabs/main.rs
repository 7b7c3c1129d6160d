//! The tabs and the selection of one.

use vstd::prelude::*;
use crate::tabs::history::HistoryMessage;

verus! {

/// A tab of the window.
#[derive(Clone, Copy, PartialEq, Eq, Debug, Structural)]
pub enum TabId {
    Home,
    Settings,
    History,
}

impl Default for TabId {
    /// The tab shown at start.
    fn default() -> (tab: TabId)
        ensures
            tab == TabId::Home,
    {
        TabId::Home
    }
}

/// What the history tab is sent when a tab is selected: a request to load
/// the history where it is the history tab, nothing otherwise.
pub open spec fn on_selected(selected: TabId) -> Option<HistoryMessage> {
    if selected == TabId::History {
        Some(HistoryMessage::LoadHistory)
    } else {
        None
    }
}

/// Selects a tab, and gives the message that follows the selection.
pub fn select_tab(active_tab: &mut TabId, selected: TabId) -> (follow_up: Option<HistoryMessage>)
    ensures
        *final(active_tab) == selected,
        follow_up == on_selected(selected),
{
    *active_tab = selected;
    match selected {
        TabId::History => Some(HistoryMessage::LoadHistory),
        _ => None,
    }
}

} // verus!
