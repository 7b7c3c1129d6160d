//! The state of the tabbed graphical front end: which tab is shown, the
//! lookup tab and the history tab.

pub mod history;
pub mod home;
pub mod main;
