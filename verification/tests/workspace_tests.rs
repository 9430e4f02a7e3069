use tnotes::workspace::{
    close_request, main_pane, ActiveModal, ActiveScreen, CloseRequest, MainPane, TNotesWorkspace,
    WorkspaceViewMode, STRESS_FRAME_MICROS,
};

#[test]
fn escape_closes_modal_then_settings() {
    assert_eq!(close_request(ActiveScreen::Settings, Some(ActiveModal::CommandPalette)), CloseRequest::CloseModal);
    assert_eq!(close_request(ActiveScreen::Settings, None), CloseRequest::LeaveSettings);
    assert_eq!(close_request(ActiveScreen::Workspace, None), CloseRequest::Ignore);
    assert_eq!(close_request(ActiveScreen::Auth, Some(ActiveModal::CommandPalette)), CloseRequest::CloseModal);
}

#[test]
fn panes_follow_screen_and_mode() {
    assert_eq!(main_pane(ActiveScreen::Settings, WorkspaceViewMode::Editor), MainPane::Settings);
    assert_eq!(main_pane(ActiveScreen::Workspace, WorkspaceViewMode::Dashboard), MainPane::Dashboard);
    assert_eq!(main_pane(ActiveScreen::Auth, WorkspaceViewMode::Editor), MainPane::Editor);
}

#[test]
fn overlay_switches() {
    let mut w = TNotesWorkspace::new();
    w.toggle_fps();
    assert!(w.fps_visible);
    assert!(w.toggle_stress_test());
    assert!(w.keeps_redrawing());
    assert!(!w.toggle_stress_test());
    assert!(!w.keeps_redrawing());
    assert!(w.fps_visible);
    assert_eq!(STRESS_FRAME_MICROS, 6500);
}
