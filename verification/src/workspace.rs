//! The workspace window: which page fills it, what the close shortcut does,
//! and the frame-rate overlay's switches.
use vstd::prelude::*;

verus! {

/// The page the window shows.
#[derive(Clone, Copy, Debug, PartialEq, Eq, Structural)]
pub enum ActiveScreen {
    Workspace,
    Settings,
    Auth,
}

/// A modal shown over the page (none is `Option::None`).
#[derive(Clone, Copy, Debug, PartialEq, Eq, Structural)]
pub enum ActiveModal {
    CommandPalette,
}

/// What the workspace shows beside the sidebar.
#[derive(Clone, Copy, Debug, PartialEq, Eq, Structural)]
pub enum WorkspaceViewMode {
    Dashboard,
    Editor,
}

/// What the close shortcut (Escape) asks of the application state.
#[derive(Clone, Copy, Debug, PartialEq, Eq, Structural)]
pub enum CloseRequest {
    CloseModal,
    LeaveSettings,
    Ignore,
}

/// What fills the window: the settings page alone, or the sidebar beside
/// the folder dashboard or the editor.
#[derive(Clone, Copy, Debug, PartialEq, Eq, Structural)]
pub enum MainPane {
    Settings,
    Dashboard,
    Editor,
}

/// The close shortcut closes an open modal first; otherwise it leaves the
/// settings page; otherwise it does nothing.
pub fn close_request(screen: ActiveScreen, modal: Option<ActiveModal>) -> (r: CloseRequest)
    ensures
        modal is Some ==> r == CloseRequest::CloseModal,
        modal is None && screen == ActiveScreen::Settings ==> r == CloseRequest::LeaveSettings,
        modal is None && screen != ActiveScreen::Settings ==> r == CloseRequest::Ignore,
{
    match modal {
        Some(_) => CloseRequest::CloseModal,
        None => match screen {
            ActiveScreen::Settings => CloseRequest::LeaveSettings,
            _ => CloseRequest::Ignore,
        },
    }
}

/// What fills the window for a screen and view mode.
pub fn main_pane(screen: ActiveScreen, mode: WorkspaceViewMode) -> (r: MainPane)
    ensures
        screen == ActiveScreen::Settings ==> r == MainPane::Settings,
        screen != ActiveScreen::Settings && mode == WorkspaceViewMode::Dashboard ==> r
            == MainPane::Dashboard,
        screen != ActiveScreen::Settings && mode == WorkspaceViewMode::Editor ==> r
            == MainPane::Editor,
{
    match screen {
        ActiveScreen::Settings => MainPane::Settings,
        _ => match mode {
            WorkspaceViewMode::Dashboard => MainPane::Dashboard,
            WorkspaceViewMode::Editor => MainPane::Editor,
        },
    }
}

/// Microseconds between the redraws forced while stress testing.
pub const STRESS_FRAME_MICROS: u64 = 6500;

/// The frame-rate overlay's switches.
pub struct TNotesWorkspace {
    pub fps_visible: bool,
    pub stress_testing: bool,
}

impl TNotesWorkspace {
    /// Overlay hidden, no stress test.
    pub fn new() -> (w: Self)
        ensures
            !w.fps_visible,
            !w.stress_testing,
    {
        TNotesWorkspace { fps_visible: false, stress_testing: false }
    }

    /// Shows or hides the frame-rate overlay.
    pub fn toggle_fps(&mut self)
        ensures
            final(self).fps_visible == !old(self).fps_visible,
            final(self).stress_testing == old(self).stress_testing,
    {
        self.fps_visible = !self.fps_visible;
    }

    /// Starts or stops the stress test; tells whether a redraw loop is to be
    /// started (when the test has just begun).
    pub fn toggle_stress_test(&mut self) -> (start_loop: bool)
        ensures
            final(self).stress_testing == !old(self).stress_testing,
            final(self).fps_visible == old(self).fps_visible,
            start_loop == final(self).stress_testing,
    {
        self.stress_testing = !self.stress_testing;
        self.stress_testing
    }

    /// Whether the redraw loop goes on: as long as the stress test runs.
    pub fn keeps_redrawing(&self) -> (r: bool)
        ensures
            r == self.stress_testing,
    {
        self.stress_testing
    }
}

} // verus!
