use herdr_shell::agent_panel::{AgentGroupRow, AgentStatus};
use herdr_shell::copy_state::{ClientShellMode, ClientShellState};
use herdr_shell::text_editor::TextEditor;
use herdr_shell::types::{
    ClientShellEndpointError, ClientShellInput, CursorState, EndpointErrorCode, KeyCode, KeyModifiers,
    PaneSurface, PaneSurfacePane, PaneTextPoint, RawInputEvent, ResponseResult, ScrollMetrics, SurfaceRect,
    TerminalKey,
};

fn law_surface(offset_from_bottom: usize, max_offset_from_bottom: usize) -> PaneSurface {
    PaneSurface {
        surface_revision: 1,
        cursor: Some(CursorState { x: 1, y: 2, visible: true }),
        panes: vec![PaneSurfacePane {
            pane_id: "pane_1".to_string(),
            content_revision: 0,
            alternate_screen_active: false,
            inner_rect: SurfaceRect { x: 0, y: 1, width: 40, height: 2 },
            scroll: Some(ScrollMetrics { offset_from_bottom, max_offset_from_bottom, viewport_rows: 2 }),
        }],
    }
}

fn law_state(offset_from_bottom: usize, max_offset_from_bottom: usize) -> ClientShellState {
    let mut state = ClientShellState::new();
    state.set_focused_pane(Some("pane_1".to_string()));
    state.set_pane_surface(law_surface(offset_from_bottom, max_offset_from_bottom));
    assert!(state.enter_copy_mode(&mut ClientShellInput::default()));
    state
}

fn law_key(ch: char) -> RawInputEvent {
    RawInputEvent::Key(TerminalKey::new(KeyCode::Char(ch), KeyModifiers::empty()))
}

#[test]
fn count_prefix_is_capped_at_ten_thousand() {
    let mut state = law_state(0, 20);
    for digit in "99999".chars() {
        state.handle_raw_events(vec![law_key(digit)]);
    }
    assert_eq!(state.copy_mode.as_ref().unwrap().pending_count, Some(10_000));
    state.handle_raw_events(vec![law_key('7')]);
    assert_eq!(state.copy_mode.as_ref().unwrap().pending_count, Some(10_000));
}

#[test]
fn line_breaks_fold_to_single_spaces() {
    let mut editor = TextEditor::new();
    assert!(editor.insert("a\rb\r\nc\n"));
    assert_eq!(editor.text.iter().collect::<String>(), "a b c ");
    assert!(!editor.insert(""));
    assert!(editor.insert("plain"));
    assert_eq!(editor.text.iter().collect::<String>(), "a b c plain");
}

#[test]
fn endpoint_error_codes_are_classified() {
    assert_eq!(EndpointErrorCode::from_code("copy_object_unavailable"), EndpointErrorCode::CopyObjectUnavailable);
    assert_eq!(EndpointErrorCode::from_code("stale_content"), EndpointErrorCode::StaleContent);
    assert_eq!(EndpointErrorCode::from_code("endpoint_timeout"), EndpointErrorCode::Timeout);
    assert_eq!(EndpointErrorCode::from_code("boom"), EndpointErrorCode::Other);
}

#[test]
fn unknown_response_ids_change_nothing() {
    let mut state = law_state(0, 20);
    let before = format!("{state:?}");
    let (repaint, actions) = state.handle_endpoint_result(
        999,
        Ok(ResponseResult::PaneCopyMotion {
            pane_id: "pane_1".to_string(),
            cursor: PaneTextPoint { row: 3, col: 3 },
            content_revision: 0,
        }),
    );
    assert!(!repaint);
    assert!(actions.is_empty());
    assert_eq!(format!("{state:?}"), before);
}

#[test]
fn current_session_timeout_is_shown_as_a_notice() {
    let mut state = law_state(0, 20);
    let motion = state.handle_raw_events(vec![law_key('w')]);
    let id = match &motion.actions[..] {
        [herdr_shell::types::ClientShellAction::Endpoint { request }] => request.id,
        _ => panic!("w should dispatch a motion"),
    };
    state.handle_raw_events(vec![law_key('l')]);
    assert_eq!(state.copy_input_queue.len(), 1);
    let (_, actions) = state.handle_endpoint_result(
        id,
        Err(ClientShellEndpointError {
            code: Some(EndpointErrorCode::Timeout),
            message: "timed out".to_string(),
        }),
    );
    assert!(actions.is_empty());
    assert_eq!(state.visible_endpoint_notice.as_deref(), Some("timed out"));
    assert!(state.copy_input_queue.is_empty());
    assert!(!state.copy_operation_in_flight);
    assert_eq!(state.mode, ClientShellMode::Copy);
}

#[test]
fn keys_wait_behind_an_in_flight_request_in_order() {
    let mut state = law_state(0, 20);
    state.handle_raw_events(vec![law_key('w')]);
    assert!(state.copy_operation_in_flight);
    state.handle_raw_events(vec![law_key('h'), law_key('3'), law_key('k')]);
    let queued: Vec<KeyCode> = state.copy_input_queue.iter().map(|key| key.code).collect();
    assert_eq!(queued, vec![KeyCode::Char('h'), KeyCode::Char('3'), KeyCode::Char('k')]);
    // Esc acts at once and leaves copy mode, dropping the queue.
    state.handle_raw_events(vec![RawInputEvent::Key(TerminalKey::new(KeyCode::Esc, KeyModifiers::empty()))]);
    assert_eq!(state.mode, ClientShellMode::Terminal);
    assert!(state.copy_input_queue.is_empty());
}

#[test]
fn group_headers_mark_their_fold() {
    let open = AgentGroupRow {
        group_key: "local".to_string(),
        label: "Local".to_string(),
        status: AgentStatus::Idle,
        collapsed: false,
    };
    assert_eq!(open.header_text(), "▾ Local");
    let folded = AgentGroupRow { collapsed: true, ..open };
    assert_eq!(folded.header_text(), "▸ Local");
}

#[test]
fn column_bar_moves_to_the_counted_column() {
    let mut state = law_state(0, 20);
    state.handle_raw_events(vec![law_key('5'), law_key('|')]);
    assert_eq!(state.copy_mode.as_ref().unwrap().cursor.col, 4);
    state.handle_raw_events(vec![law_key('9'), law_key('9'), law_key('|')]);
    assert_eq!(state.copy_mode.as_ref().unwrap().cursor.col, 39, "clamped to the last column");
    state.handle_raw_events(vec![law_key('|')]);
    assert_eq!(state.copy_mode.as_ref().unwrap().cursor.col, 0);
}

#[test]
fn home_and_end_act_on_the_counted_line() {
    let mut state = law_state(20, 20);
    assert_eq!(state.copy_mode.as_ref().unwrap().cursor, PaneTextPoint { row: 1, col: 1 });
    state.handle_raw_events(vec![law_key('2'), RawInputEvent::Key(TerminalKey::new(KeyCode::Home, KeyModifiers::empty()))]);
    assert_eq!(state.copy_mode.as_ref().unwrap().cursor, PaneTextPoint { row: 2, col: 0 });
    let end = state.handle_raw_events(vec![RawInputEvent::Key(TerminalKey::new(KeyCode::End, KeyModifiers::empty()))]);
    assert!(end.actions.iter().any(|action| matches!(
        action,
        herdr_shell::types::ClientShellAction::Endpoint { request }
            if matches!(&request.method, herdr_shell::types::Method::PaneCopyMotion(params)
                if params.motion == herdr_shell::types::PaneCopyMotion::LineEnd && params.cursor.row == 2)
    )));
}

#[test]
fn page_keys_move_cursor_and_viewport_together() {
    let mut state = law_state(0, 20);
    assert_eq!(state.copy_mode.as_ref().unwrap().cursor.row, 21);
    let up = state.handle_raw_events(vec![RawInputEvent::Key(TerminalKey::new(KeyCode::PageUp, KeyModifiers::empty()))]);
    let copy_mode = state.copy_mode.as_ref().unwrap();
    assert_eq!(copy_mode.cursor.row, 19);
    assert_eq!(copy_mode.offset_from_bottom, 2);
    assert!(up.actions.iter().any(|action| matches!(
        action,
        herdr_shell::types::ClientShellAction::Endpoint { request }
            if matches!(&request.method, herdr_shell::types::Method::PaneScroll(params) if params.offset_from_bottom == 2)
    )));
    state.handle_raw_events(vec![RawInputEvent::Key(TerminalKey::new(KeyCode::Char('d'), KeyModifiers::control()))]);
    let copy_mode = state.copy_mode.as_ref().unwrap();
    assert_eq!(copy_mode.cursor.row, 20);
    assert_eq!(copy_mode.offset_from_bottom, 1);
}

#[test]
fn entering_copy_mode_drops_highlight_clear_and_drag_autoscroll() {
    let mut state = ClientShellState::new();
    state.set_focused_pane(Some("pane_1".to_string()));
    state.set_pane_surface(law_surface(0, 20));
    state.selection_highlight_clear_deadline = Some(1_500);
    state.selection_autoscroll_active = true;
    assert!(state.enter_copy_mode(&mut ClientShellInput::default()));
    assert_eq!(state.selection_highlight_clear_deadline, None);
    assert!(!state.selection_autoscroll_active);
}

#[test]
fn leaving_copy_mode_drops_the_highlight_clear_deadline() {
    let mut state = law_state(0, 20);
    state.selection_highlight_clear_deadline = Some(900);
    state.handle_raw_events(vec![law_key('0')]);
    assert_eq!(state.selection_highlight_clear_deadline, Some(900));
    state.handle_raw_events(vec![law_key('q')]);
    assert_eq!(state.mode, ClientShellMode::Terminal);
    assert_eq!(state.selection_highlight_clear_deadline, None);
}

#[test]
fn column_zero_keeps_the_selection_and_moves_it_along() {
    let mut state = law_state(0, 20);
    state.handle_raw_events(vec![law_key('l'), law_key('l'), law_key('v'), law_key('l')]);
    assert!(state.selection.is_some(), "selection after v");
    let before = format!("{:?}", state.selection);
    state.handle_raw_events(vec![law_key('0')]);
    let copy_mode = state.copy_mode.as_ref().unwrap();
    assert_eq!(copy_mode.cursor.col, 0);
    assert!(copy_mode.selection.is_some());
    assert!(state.selection.is_some(), "selection kept after 0");
    assert_ne!(before, format!("{:?}", state.selection));
}

#[test]
fn oversized_scrollback_surfaces_are_refused() {
    let mut state = ClientShellState::new();
    let before = format!("{state:?}");
    assert!(!state.install_pane_surface(law_surface(0, 0xFFFF_8000)));
    assert_eq!(format!("{state:?}"), before);
    assert!(state.install_pane_surface(law_surface(0, 0xFFFF_7FFF)));
    assert!(state.pane_surface.is_some());
    assert_eq!(state.hits.panes.len(), 1);
}

#[test]
fn keys_without_copy_mode_change_nothing() {
    let mut state = ClientShellState::new();
    let before = format!("{state:?}");
    let mut outcome = ClientShellInput::default();
    state.route_copy_mode_key(&TerminalKey::new(KeyCode::Char('q'), KeyModifiers::empty()), &mut outcome);
    assert_eq!(format!("{state:?}"), before);
    assert!(!outcome.repaint);
    assert!(outcome.actions.is_empty());
}
