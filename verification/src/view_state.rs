//! The parts of the application's view state that the library's decisions
//! read: which view is shown, which home tab has focus, and the input mode.

use vstd::prelude::*;

verus! {

/// The main view on screen.
#[derive(Debug, Clone, Copy, PartialEq, Eq, Structural)]
pub enum AppView {
    Login,
    Home,
    Chat,
    AgentBrowser,
    LessonViewer,
}

/// The tab of the home view's main panel.
#[derive(Debug, Clone, Copy, PartialEq, Eq, Structural)]
pub enum HomeTab {
    Conversations,
    Inbox,
    Reports,
    Feed,
    ActiveWork,
    Stats,
}

/// Whether keys edit the input or act as commands.
#[derive(Debug, Clone, Copy, PartialEq, Eq, Structural)]
pub enum InputMode {
    Normal,
    Editing,
}

} // verus!
