use herdr_shell::copy_state::{
    ClientCopyModeState, ClientCopyOperation, ClientCopySearchPrompt, ClientCopySelection, ClientShellMode,
    ClientShellState,
};
use herdr_shell::selection::Selection;
use herdr_shell::text_editor::TextEditor;
use herdr_shell::types::{
    ClientCopySearchResult, ClientShellAction, ClientShellEndpointError, ClientShellInput, CursorState,
    EndpointErrorCode, KeyCode, KeyModifiers, Method, PaneCopyMotion, PaneCopyObjectRequest,
    PaneCopySearchDirection, PaneSurface, PaneSurfacePane, PaneTextPoint, PaneTextRange, RawInputEvent,
    ResponseResult, ScrollMetrics, SurfaceRect, TerminalKey,
};

fn surface_with_scroll(offset_from_bottom: usize, max_offset_from_bottom: usize) -> PaneSurface {
    PaneSurface {
        surface_revision: 1,
        cursor: Some(CursorState { x: 1, y: 2, visible: true }),
        panes: vec![PaneSurfacePane {
            pane_id: "pane_1".to_string(),
            content_revision: 0,
            alternate_screen_active: false,
            inner_rect: SurfaceRect { x: 0, y: 1, width: 40, height: 2 },
            scroll: Some(ScrollMetrics { offset_from_bottom, max_offset_from_bottom, viewport_rows: 2 }),
        }],
    }
}

fn copy_mode_state_with_scroll(offset_from_bottom: usize, max_offset_from_bottom: usize) -> ClientShellState {
    let mut state = ClientShellState::new();
    state.set_focused_pane(Some("pane_1".to_string()));
    state.set_pane_surface(surface_with_scroll(offset_from_bottom, max_offset_from_bottom));
    let mut enter = ClientShellInput::default();
    assert!(state.enter_copy_mode(&mut enter));
    state
}

fn copy_mode_key(ch: char) -> RawInputEvent {
    RawInputEvent::Key(TerminalKey::new(KeyCode::Char(ch), KeyModifiers::empty()))
}

fn shifted_key(ch: char) -> RawInputEvent {
    RawInputEvent::Key(TerminalKey::new(KeyCode::Char(ch), KeyModifiers::shift()))
}

fn control_key(ch: char) -> RawInputEvent {
    RawInputEvent::Key(TerminalKey::new(KeyCode::Char(ch), KeyModifiers::control()))
}

fn special_key(code: KeyCode) -> RawInputEvent {
    RawInputEvent::Key(TerminalKey::new(code, KeyModifiers::empty()))
}

fn typed(text: &str) -> RawInputEvent {
    RawInputEvent::Text(text.to_string())
}

fn copy_match(row: u32, col: u16) -> PaneTextRange {
    PaneTextRange { start: PaneTextPoint { row, col }, end: PaneTextPoint { row, col: col + 2 } }
}

fn copy_search_result(matches: Vec<PaneTextRange>, current: Option<usize>) -> ResponseResult {
    ResponseResult::PaneCopySearch(ClientCopySearchResult {
        total: matches.len(),
        matches,
        current,
        current_global: current,
        content_revision: 0,
    })
}

fn pane_scroll_result(offset_from_bottom: usize, max_offset_from_bottom: usize) -> ResponseResult {
    ResponseResult::PaneScroll { pane_id: "pane_1".to_string(), offset_from_bottom, max_offset_from_bottom }
}

fn motion_result(cursor: PaneTextPoint) -> ResponseResult {
    ResponseResult::PaneCopyMotion { pane_id: "pane_1".to_string(), cursor, content_revision: 0 }
}

fn object_result(range: PaneTextRange) -> ResponseResult {
    ResponseResult::PaneCopyObject { pane_id: "pane_1".to_string(), range, content_revision: 0 }
}

fn endpoint_error(code: &str, message: &str) -> ClientShellEndpointError {
    ClientShellEndpointError { code: Some(EndpointErrorCode::from_code(code)), message: message.to_string() }
}

fn chars(text: &[char]) -> String {
    text.iter().collect()
}

fn single_request(actions: &[ClientShellAction]) -> Option<(u64, Method)> {
    match actions {
        [ClientShellAction::Endpoint { request }] => Some((request.id, request.method.clone())),
        _ => None,
    }
}

fn search_query(method: &Method) -> Option<String> {
    match method {
        Method::PaneCopySearch(params) => Some(chars(&params.query)),
        _ => None,
    }
}

fn cursor(state: &ClientShellState) -> PaneTextPoint {
    state.copy_mode.as_ref().expect("copy mode").cursor
}

fn changed_content(state: &ClientShellState) -> PaneSurface {
    let mut changed = state.pane_surface.clone().expect("pane surface");
    changed.surface_revision += 1;
    changed.panes[0].content_revision = 2;
    changed
}

// ------------------------------------------------------------------ block

#[test]
fn copy_mode_block_selection_anchors_extends_and_yanks_read_block() {
    let mut state = copy_mode_state_with_scroll(0, 20);
    let metrics = ScrollMetrics { offset_from_bottom: 0, max_offset_from_bottom: 20, viewport_rows: 2 };

    state.handle_raw_events(vec![control_key('v')]);
    let origin = cursor(&state);
    let anchor = state.copy_mode.as_ref().and_then(|copy_mode| copy_mode.selection).expect("block selection active");
    assert!(
        matches!(anchor, ClientCopySelection::Block { anchor } if anchor == origin),
        "unexpected anchor {anchor:?}"
    );

    state.handle_raw_events(vec![copy_mode_key('2'), copy_mode_key('j')]);
    state.handle_raw_events(vec![copy_mode_key('3'), copy_mode_key('l')]);
    let end = cursor(&state);
    let selection = state.selection.as_ref().expect("projected selection");
    assert!(selection.is_block());
    assert_eq!(selection.ordered_cells(), ((origin.row, origin.col), (end.row, end.col)));
    assert!(selection.contains(1, end.col, Some(metrics)), "inside cell");
    assert!(!selection.contains(1, end.col + 1, Some(metrics)), "same row outside band");
    assert!(!selection.contains(4, 0, Some(metrics)), "row below block");

    let copy = state.handle_raw_events(vec![copy_mode_key('y')]);
    assert_eq!(state.mode, ClientShellMode::Terminal);
    assert!(state.copy_mode.is_none());
    assert!(state.selection.is_none());
    assert!(copy.actions.iter().any(|action| matches!(
        action,
        ClientShellAction::Endpoint { request }
            if matches!(
                &request.method,
                Method::PaneSelectionReadBlock(params)
                    if params.pane_id == "pane_1"
                        && params.anchor.row == origin.row
                        && params.anchor.col == origin.col
                        && params.cursor.row == end.row
                        && params.cursor.col == end.col
                        && params.content_revision.is_none()
            )
    )));
}

#[test]
fn copy_mode_pressing_v_switches_block_to_character_and_esc_clears() {
    let mut state = copy_mode_state_with_scroll(0, 20);

    state.handle_raw_events(vec![control_key('v')]);
    let origin = cursor(&state);
    state.handle_raw_events(vec![copy_mode_key('j')]);
    let moved = cursor(&state);

    state.handle_raw_events(vec![copy_mode_key('v')]);
    let selection = state.copy_mode.as_ref().and_then(|copy_mode| copy_mode.selection).expect("selection still active");
    assert!(
        matches!(selection, ClientCopySelection::Character { anchor } if anchor == origin),
        "unexpected selection {selection:?}"
    );
    assert_eq!(
        state.selection.as_ref().map(Selection::ordered_cells),
        Some(((origin.row, origin.col), (moved.row, moved.col)))
    );
    assert!(!state.selection.as_ref().expect("selection").is_block());

    state.handle_raw_events(vec![special_key(KeyCode::Esc)]);
    assert_eq!(state.mode, ClientShellMode::Copy);
    assert!(state.copy_mode.as_ref().is_some_and(|copy_mode| copy_mode.selection.is_none()));
    assert!(state.selection.is_none());
}

// ----------------------------------------------------------------- counts

#[test]
fn copy_mode_count_prefix_accumulates_and_zero_disambiguates() {
    let mut state = copy_mode_state_with_scroll(0, 0);
    state.handle_raw_events(vec![copy_mode_key('2')]);
    assert_eq!(
        state.copy_mode.as_ref().unwrap().pending_count,
        Some(2),
        "digits start a count prefix without moving the cursor"
    );
    state.handle_raw_events(vec![copy_mode_key('0')]);
    assert_eq!(state.copy_mode.as_ref().unwrap().pending_count, Some(20));

    state.handle_raw_events(vec![copy_mode_key('j')]);
    assert_eq!(state.copy_mode.as_ref().unwrap().pending_count, None);
    assert_eq!(state.copy_mode.as_ref().unwrap().cursor.row, 1);

    state.copy_mode.as_mut().unwrap().cursor.col = 2;
    state.handle_raw_events(vec![copy_mode_key('0')]);
    assert_eq!(state.copy_mode.as_ref().unwrap().cursor.col, 0);
    assert_eq!(state.copy_mode.as_ref().unwrap().pending_count, None);
}

#[test]
fn copy_mode_count_sends_one_atomic_horizontal_motion() {
    let mut state = copy_mode_state_with_scroll(0, 0);
    state.copy_mode.as_mut().unwrap().cursor.col = 0;
    state.handle_raw_events(vec![copy_mode_key('2')]);
    let motion = state.handle_raw_events(vec![copy_mode_key('l')]);
    assert!(motion.actions.is_empty(), "counted h/l move locally without an endpoint request");
    assert_eq!(state.pending_requests.len(), 0);
    assert_eq!(state.copy_mode.as_ref().unwrap().cursor.col, 2);

    state.handle_raw_events(vec![copy_mode_key('3')]);
    state.handle_raw_events(vec![copy_mode_key('h')]);
    assert_eq!(state.copy_mode.as_ref().unwrap().cursor.col, 0, "3h clamps at column 0");
}

#[test]
fn copy_mode_count_queues_repeated_word_motions() {
    let mut state = copy_mode_state_with_scroll(0, 0);
    let origin = cursor(&state);
    state.handle_raw_events(vec![copy_mode_key('3')]);
    let motion = state.handle_raw_events(vec![copy_mode_key('w')]);
    let (mut request_id, _) =
        single_request(&motion.actions).expect("counted word motion should dispatch the first endpoint request");

    for step in 1..=3u16 {
        let (repaint, actions) = state.handle_endpoint_result(
            request_id,
            Ok(motion_result(PaneTextPoint { row: origin.row, col: origin.col + step })),
        );
        assert!(repaint);
        if step == 3 {
            assert!(actions.is_empty(), "queue must be drained after 3 motions");
        } else {
            let Some((id, method)) = single_request(&actions) else {
                panic!("expected the next queued motion, {} remaining", 3 - step);
            };
            assert!(matches!(
                &method,
                Method::PaneCopyMotion(params) if params.motion == PaneCopyMotion::NextWordStart
            ));
            request_id = id;
        }
    }
}

#[test]
fn copy_mode_count_moves_to_later_line_before_line_end() {
    let mut state = copy_mode_state_with_scroll(20, 20);
    assert_eq!(state.copy_mode.as_ref().unwrap().cursor.row, 1);
    state.handle_raw_events(vec![copy_mode_key('3')]);
    let motion = state.handle_raw_events(vec![copy_mode_key('$')]);
    assert!(motion.actions.iter().any(|action| matches!(
        action,
        ClientShellAction::Endpoint { request }
            if matches!(
                &request.method,
                Method::PaneCopyMotion(params)
                    if params.cursor.row == 3 && params.motion == PaneCopyMotion::LineEnd
            )
    )));
}

#[test]
fn copy_mode_count_g_jumps_to_absolute_row_and_reveals() {
    let mut state = copy_mode_state_with_scroll(0, 20);
    assert_eq!(state.copy_mode.as_ref().unwrap().cursor.row, 21);
    state.handle_raw_events(vec![copy_mode_key('5')]);
    state.handle_raw_events(vec![shifted_key('G')]);
    let copy_mode = state.copy_mode.as_ref().unwrap();
    assert_eq!(copy_mode.cursor.row, 4, "5G jumps to absolute row 4");
    assert_eq!(copy_mode.offset_from_bottom, 16, "scrolling must follow the jumped cursor");

    state.handle_raw_events(vec![shifted_key('G')]);
    state.handle_raw_events(vec![copy_mode_key('5')]);
    state.handle_raw_events(vec![copy_mode_key('g')]);
    assert_eq!(state.copy_mode.as_ref().unwrap().cursor.row, 4);
}

#[test]
fn copy_mode_h_m_l_jump_within_the_viewport_and_keep_the_column() {
    let mut state = copy_mode_state_with_scroll(0, 20);
    assert_eq!(state.copy_mode.as_ref().unwrap().cursor.row, 21);

    state.handle_raw_events(vec![shifted_key('H')]);
    let copy_mode = state.copy_mode.as_ref().unwrap();
    assert_eq!(copy_mode.cursor.row, 20);
    assert_eq!(copy_mode.cursor.col, 1);

    state.handle_raw_events(vec![shifted_key('M')]);
    assert_eq!(state.copy_mode.as_ref().unwrap().cursor.row, 21);

    state.handle_raw_events(vec![shifted_key('L')]);
    assert_eq!(state.copy_mode.as_ref().unwrap().cursor.row, 21);

    state.handle_raw_events(vec![copy_mode_key('2')]);
    state.handle_raw_events(vec![shifted_key('H')]);
    assert_eq!(state.copy_mode.as_ref().unwrap().cursor.row, 21);

    state.handle_raw_events(vec![copy_mode_key('2')]);
    state.handle_raw_events(vec![shifted_key('L')]);
    assert_eq!(state.copy_mode.as_ref().unwrap().cursor.row, 20);
}

#[test]
fn copy_mode_count_queues_repeated_searches() {
    let mut state = copy_mode_state_with_scroll(0, 0);
    state.handle_raw_events(vec![copy_mode_key('3')]);
    state.handle_raw_events(vec![copy_mode_key('/')]);
    assert_eq!(
        state.copy_mode.as_ref().and_then(|copy_mode| copy_mode.search_prompt.as_ref()).map(|prompt| prompt.count),
        Some(3)
    );
    let typed_needle = state.handle_raw_events(vec![typed("needle")]);
    assert!(matches!(
        &typed_needle.actions[..],
        [ClientShellAction::Endpoint { request }]
            if matches!(
                &request.method,
                Method::PaneCopySearch(params) if chars(&params.query) == "needle" && params.previous.is_none()
            )
    ));
    let commit = state.handle_raw_events(vec![special_key(KeyCode::Enter)]);
    assert!(commit.actions.is_empty());
    assert_eq!(state.copy_operation_queue.len(), 1);
    assert!(matches!(
        state.copy_operation_queue.front(),
        Some(ClientCopyOperation::Search { repeat: true, remaining: 2, .. })
    ));
}

#[test]
fn copy_mode_count_sends_one_atomic_find() {
    let mut state = copy_mode_state_with_scroll(0, 0);
    state.handle_raw_events(vec![copy_mode_key('3')]);
    state.handle_raw_events(vec![copy_mode_key('f')]);
    assert_eq!(state.copy_mode.as_ref().unwrap().pending_count, Some(3));
    let find = state.handle_raw_events(vec![copy_mode_key('o')]);
    let (_, method) = single_request(&find.actions).expect("3fo should dispatch one find");
    assert!(matches!(
        &method,
        Method::PaneCopyObject(params)
            if params.request
                == PaneCopyObjectRequest::Find {
                    ch: 'o',
                    direction: PaneCopySearchDirection::Forward,
                    till: false,
                    count: 3,
                    repeat: false,
                }
    ));
    assert!(state.copy_operation_queue.is_empty());
    assert_eq!(state.copy_mode.as_ref().unwrap().pending_count, None);
}

#[test]
fn copy_mode_counted_text_object_is_one_outer_object_request() {
    let mut state = copy_mode_state_with_scroll(0, 0);
    state.handle_raw_events(vec![copy_mode_key('2')]);
    state.handle_raw_events(vec![copy_mode_key('i')]);
    let object = state.handle_raw_events(vec![copy_mode_key('(')]);
    assert!(matches!(
        &object.actions[..],
        [ClientShellAction::Endpoint { request }]
            if matches!(
                &request.method,
                Method::PaneCopyObject(params)
                    if params.request
                        == PaneCopyObjectRequest::Object { inside: true, open: '(', close: ')', count: 2, word: None }
            )
    ));
    assert!(state.copy_operation_queue.is_empty());
}

#[test]
fn copy_mode_esc_cancels_standalone_count_without_exiting() {
    let mut state = copy_mode_state_with_scroll(0, 0);
    state.handle_raw_events(vec![copy_mode_key('3')]);
    state.handle_raw_events(vec![special_key(KeyCode::Esc)]);
    assert_eq!(state.mode, ClientShellMode::Copy);
    assert_eq!(state.copy_mode.as_ref().unwrap().pending_count, None);
}

#[test]
fn copy_repeat_counts_are_compact_lazy_and_terminating() {
    let mut state = copy_mode_state_with_scroll(0, 0);
    let origin = cursor(&state);
    for digit in "10000".chars() {
        state.handle_raw_events(vec![copy_mode_key(digit)]);
    }
    let motion = state.handle_raw_events(vec![copy_mode_key('w')]);
    let (request_id, _) = single_request(&motion.actions).expect("counted word motion should dispatch");
    assert!(state.copy_operation_queue.is_empty(), "repeat chains must not preallocate one entry per count");
    let (_, actions) = state.handle_endpoint_result(request_id, Ok(motion_result(origin)));
    assert!(actions.is_empty(), "no-progress motion terminates the chain");
    assert!(state.copy_operation_queue.is_empty());
    assert!(!state.copy_operation_in_flight);
    assert_eq!(cursor(&state), origin);

    let mut state = copy_mode_state_with_scroll(0, 20);
    for digit in "20000".chars() {
        state.handle_raw_events(vec![copy_mode_key(digit)]);
    }
    let motion = state.handle_raw_events(vec![copy_mode_key('w')]);
    let (request_id, _) = single_request(&motion.actions).expect("counted word motion should dispatch");
    assert!(state.copy_operation_queue.is_empty());
    state.handle_raw_events(vec![special_key(KeyCode::Esc)]);
    assert_eq!(state.mode, ClientShellMode::Terminal);
    assert!(state.copy_mode.is_none());
    let (_, actions) = state.handle_endpoint_result(request_id, Ok(motion_result(PaneTextPoint { row: 5, col: 2 })));
    assert!(actions.is_empty(), "late completion must be ignored");

    let mut state = copy_mode_state_with_scroll(0, 20);
    for digit in "10000".chars() {
        state.handle_raw_events(vec![copy_mode_key(digit)]);
    }
    state.handle_raw_events(vec![copy_mode_key('/')]);
    let typed_query = state.handle_raw_events(vec![typed("needle in a long haystack")]);
    let (live_id, _) = single_request(&typed_query.actions).expect("live search should dispatch");
    state.handle_raw_events(vec![special_key(KeyCode::Enter)]);
    assert_eq!(state.copy_operation_queue.len(), 1, "a large search count must stay a single compact entry");
    assert!(matches!(
        state.copy_operation_queue.front(),
        Some(ClientCopyOperation::Search { repeat: true, remaining: 9999, .. })
    ));
    let (_, actions) = state.handle_endpoint_result(
        live_id,
        Ok(copy_search_result(vec![copy_match(21, 0), copy_match(25, 0)], Some(0))),
    );
    let (_, method) =
        single_request(&actions).expect("the compact repeat chain should dispatch after the live result");
    assert!(matches!(
        &method,
        Method::PaneCopySearch(params) if params.previous == Some(copy_match(21, 0))
    ));
}

// ---------------------------------------------------------------- objects

#[test]
fn non_character_motion_keys_clear_pending_find_and_text_object_prefixes() {
    let mut state = copy_mode_state_with_scroll(0, 20);

    state.handle_raw_events(vec![copy_mode_key('2')]);
    state.handle_raw_events(vec![copy_mode_key('f')]);
    assert_eq!(state.copy_mode.as_ref().unwrap().pending_find, Some((true, false)));
    assert_eq!(state.copy_mode.as_ref().unwrap().pending_count, Some(2));
    let left = state.handle_raw_events(vec![special_key(KeyCode::Left)]);
    assert!(left.actions.is_empty(), "Left moves locally, no endpoint");
    assert_eq!(state.copy_mode.as_ref().unwrap().cursor.col, 0, "2h clamps at column 0");
    assert_eq!(state.copy_mode.as_ref().unwrap().pending_find, None);
    assert_eq!(state.copy_mode.as_ref().unwrap().pending_count, None);

    let x = state.handle_raw_events(vec![copy_mode_key('x')]);
    assert!(x.actions.is_empty());
    assert!(state.copy_operation_queue.iter().all(|operation| {
        !matches!(operation, ClientCopyOperation::CopyObject(PaneCopyObjectRequest::Find { .. }))
    }));
    assert_eq!(state.copy_mode.as_ref().unwrap().pending_find, None);

    state.handle_raw_events(vec![copy_mode_key('i')]);
    assert_eq!(state.copy_mode.as_ref().unwrap().pending_text_object, Some(false));
    let left = state.handle_raw_events(vec![special_key(KeyCode::Left)]);
    assert!(left.actions.is_empty(), "Left moves locally, no endpoint");
    assert_eq!(state.copy_mode.as_ref().unwrap().pending_text_object, None);
    let brace = state.handle_raw_events(vec![copy_mode_key('{')]);
    let (_, method) = single_request(&brace.actions).expect("brace after Left should dispatch a paragraph motion");
    assert!(matches!(
        &method,
        Method::PaneCopyMotion(params) if params.motion == PaneCopyMotion::PreviousParagraph
    ));
}

#[test]
fn copy_mode_find_till_and_repeats_use_the_copy_object_endpoint() {
    let mut state = copy_mode_state_with_scroll(0, 0);
    let origin = cursor(&state);

    state.handle_raw_events(vec![copy_mode_key('f')]);
    let find = state.handle_raw_events(vec![copy_mode_key('o')]);
    let (request_id, method) = single_request(&find.actions).expect("find should dispatch a copy-object request");
    assert!(matches!(
        &method,
        Method::PaneCopyObject(params)
            if params.cursor == origin
                && params.request
                    == PaneCopyObjectRequest::Find {
                        ch: 'o',
                        direction: PaneCopySearchDirection::Forward,
                        till: false,
                        count: 1,
                        repeat: false,
                    }
    ));
    let found = PaneTextPoint { row: origin.row, col: 3 };
    let (repaint, _) =
        state.handle_endpoint_result(request_id, Ok(object_result(PaneTextRange { start: found, end: found })));
    assert!(repaint);
    assert_eq!(cursor(&state), found);

    let repeat = state.handle_raw_events(vec![copy_mode_key(';')]);
    let (request_id, method) = single_request(&repeat.actions).expect("; should repeat the last find");
    assert!(matches!(
        &method,
        Method::PaneCopyObject(params)
            if params.request
                == PaneCopyObjectRequest::Find {
                    ch: 'o',
                    direction: PaneCopySearchDirection::Forward,
                    till: false,
                    count: 1,
                    repeat: true,
                }
    ));

    let _ = state.handle_endpoint_result(request_id, Ok(object_result(PaneTextRange { start: found, end: found })));
    let reverse = state.handle_raw_events(vec![copy_mode_key(',')]);
    let (_, method) = single_request(&reverse.actions).expect(", should repeat the last find reversed");
    assert!(matches!(
        &method,
        Method::PaneCopyObject(params)
            if params.request
                == PaneCopyObjectRequest::Find {
                    ch: 'o',
                    direction: PaneCopySearchDirection::Backward,
                    till: false,
                    count: 1,
                    repeat: true,
                }
    ));
}

#[test]
fn copy_mode_pending_text_object_selects_the_object_range() {
    let mut state = copy_mode_state_with_scroll(0, 0);
    let origin = cursor(&state);

    state.handle_raw_events(vec![copy_mode_key('i')]);
    let object = state.handle_raw_events(vec![copy_mode_key('{')]);
    let (request_id, method) = single_request(&object.actions).expect("i + { should dispatch a copy-object request");
    assert!(matches!(
        &method,
        Method::PaneCopyObject(params)
            if params.cursor == origin
                && params.request
                    == PaneCopyObjectRequest::Object { inside: true, open: '{', close: '}', count: 1, word: None }
    ));
    let range = PaneTextRange {
        start: PaneTextPoint { row: origin.row, col: 1 },
        end: PaneTextPoint { row: origin.row, col: 4 },
    };
    let (repaint, _) = state.handle_endpoint_result(request_id, Ok(object_result(range)));
    assert!(repaint);
    let copy_mode = state.copy_mode.as_ref().unwrap();
    assert_eq!(copy_mode.selection, Some(ClientCopySelection::Character { anchor: range.start }));
    assert_eq!(copy_mode.cursor, range.end);
    assert!(state.selection.is_some(), "y must have a live range");

    state.handle_raw_events(vec![copy_mode_key('a')]);
    let around = state.handle_raw_events(vec![copy_mode_key('(')]);
    let (request_id, method) = single_request(&around.actions).expect("a( should dispatch a copy-object request");
    assert!(matches!(
        &method,
        Method::PaneCopyObject(params)
            if params.request
                == PaneCopyObjectRequest::Object { inside: false, open: '(', close: ')', count: 1, word: None }
    ));
    let _ = state.handle_endpoint_result(request_id, Ok(object_result(range)));

    state.handle_raw_events(vec![copy_mode_key('i')]);
    assert_eq!(state.copy_mode.as_ref().unwrap().pending_text_object, Some(false));
    state.handle_raw_events(vec![copy_mode_key('x')]);
    assert_eq!(state.copy_mode.as_ref().unwrap().pending_text_object, None);
}

#[test]
fn copy_mode_closing_delimiter_routes_to_the_open_close_pair() {
    let mut state = copy_mode_state_with_scroll(0, 0);
    let small = PaneTextRange { start: PaneTextPoint { row: 0, col: 0 }, end: PaneTextPoint { row: 0, col: 1 } };

    state.handle_raw_events(vec![copy_mode_key('i')]);
    let inside = state.handle_raw_events(vec![copy_mode_key('}')]);
    let (request_id, method) = single_request(&inside.actions).expect("i + } should dispatch a copy-object request");
    assert!(matches!(
        &method,
        Method::PaneCopyObject(params)
            if params.request
                == PaneCopyObjectRequest::Object { inside: true, open: '{', close: '}', count: 1, word: None }
    ));
    let _ = state.handle_endpoint_result(request_id, Ok(object_result(small)));

    state.handle_raw_events(vec![copy_mode_key('a')]);
    let around = state.handle_raw_events(vec![copy_mode_key('}')]);
    let (request_id, method) = single_request(&around.actions).expect("a + } should dispatch a copy-object request");
    assert!(matches!(
        &method,
        Method::PaneCopyObject(params)
            if params.request
                == PaneCopyObjectRequest::Object { inside: false, open: '{', close: '}', count: 1, word: None }
    ));
    let _ = state.handle_endpoint_result(request_id, Ok(object_result(small)));

    let bare = state.handle_raw_events(vec![copy_mode_key('}')]);
    let (_, method) = single_request(&bare.actions).expect("bare } should dispatch a copy-motion request");
    assert!(matches!(
        &method,
        Method::PaneCopyMotion(params) if params.motion == PaneCopyMotion::NextParagraph
    ));
}

#[test]
fn stale_copy_object_result_cancels_queued_copy_input() {
    let mut state = copy_mode_state_with_scroll(0, 0);
    let origin = cursor(&state);
    state.handle_raw_events(vec![copy_mode_key('i')]);
    let object = state.handle_raw_events(vec![copy_mode_key('{')]);
    state.handle_raw_events(vec![copy_mode_key('y')]);
    assert_eq!(state.copy_input_queue.len(), 1);

    let changed = changed_content(&state);
    state.set_pane_surface(changed);
    let (request_id, _) = single_request(&object.actions).expect("object request");
    let (_, actions) = state.handle_endpoint_result(
        request_id,
        Ok(object_result(PaneTextRange {
            start: origin,
            end: PaneTextPoint { row: origin.row, col: origin.col + 2 },
        })),
    );
    assert!(actions.is_empty());
    assert_eq!(state.mode, ClientShellMode::Copy);
    assert!(state.copy_mode.as_ref().unwrap().selection.is_none());
    assert!(state.copy_input_queue.is_empty());
}

#[test]
fn copy_object_find_no_match_continues_queue_but_stale_content_cancels() {
    let mut state = copy_mode_state_with_scroll(0, 0);
    let origin = cursor(&state);

    state.handle_raw_events(vec![copy_mode_key('f')]);
    let find = state.handle_raw_events(vec![copy_mode_key('z')]);
    let (find_id, method) = single_request(&find.actions).expect("f + z should dispatch a copy-object find request");
    assert!(matches!(
        &method,
        Method::PaneCopyObject(params)
            if matches!(&params.request, PaneCopyObjectRequest::Find { ch, .. } if *ch == 'z')
    ));

    state.handle_raw_events(vec![copy_mode_key('w')]);
    state.handle_raw_events(vec![copy_mode_key('l')]);
    assert_eq!(state.copy_input_queue.len(), 2);

    let (_, actions) = state.handle_endpoint_result(
        find_id,
        Err(endpoint_error("copy_object_unavailable", "requested text object or character was not found")),
    );
    assert_eq!(cursor(&state), origin);
    let (motion_id, method) = single_request(&actions).expect("benign find no-match should continue queued input");
    assert!(matches!(method, Method::PaneCopyMotion(_)), "queued w should replay as a copy-motion request");
    assert_eq!(state.copy_input_queue.len(), 1);

    let (_, actions) = state.handle_endpoint_result(
        motion_id,
        Ok(motion_result(PaneTextPoint { row: origin.row, col: origin.col + 1 })),
    );
    assert!(actions.is_empty(), "queued l must replay as a local move");
    assert!(!state.copy_operation_in_flight);
    assert!(state.copy_operation_queue.is_empty());
    assert!(state.copy_input_queue.is_empty());
    assert_eq!(
        cursor(&state),
        PaneTextPoint { row: origin.row, col: origin.col + 2 },
        "the replayed local l advances one more column"
    );

    state.handle_raw_events(vec![copy_mode_key('f')]);
    let find = state.handle_raw_events(vec![copy_mode_key('z')]);
    let (stale_id, _) = single_request(&find.actions).expect("f + z should dispatch a copy-object find request");
    state.handle_raw_events(vec![copy_mode_key('w')]);
    assert_eq!(state.copy_input_queue.len(), 1);
    let (_, actions) = state.handle_endpoint_result(stale_id, Err(endpoint_error("stale_content", "pane content changed")));
    assert!(actions.is_empty());
    assert_eq!(state.mode, ClientShellMode::Copy);
    assert!(!state.copy_operation_in_flight);
    assert!(state.copy_operation_queue.is_empty());
    assert!(state.copy_input_queue.is_empty());
}

#[test]
fn copy_mode_esc_cancels_pending_find_and_object_without_exiting() {
    let mut state = copy_mode_state_with_scroll(0, 0);
    state.handle_raw_events(vec![copy_mode_key('3')]);
    state.handle_raw_events(vec![copy_mode_key('f')]);
    state.handle_raw_events(vec![special_key(KeyCode::Esc)]);
    let copy_mode = state.copy_mode.as_ref().expect("copy mode stays open");
    assert_eq!(copy_mode.pending_find, None);
    assert_eq!(copy_mode.pending_count, None);

    state.handle_raw_events(vec![copy_mode_key('i')]);
    state.handle_raw_events(vec![special_key(KeyCode::Esc)]);
    let copy_mode = state.copy_mode.as_ref().expect("copy mode stays open");
    assert_eq!(copy_mode.pending_text_object, None);
}

#[test]
fn copy_mode_pending_text_object_routes_w_and_w_to_word_objects() {
    let mut state = copy_mode_state_with_scroll(0, 0);
    let origin = cursor(&state);

    state.handle_raw_events(vec![copy_mode_key('i')]);
    let inside = state.handle_raw_events(vec![copy_mode_key('w')]);
    let (request_id, method) = single_request(&inside.actions).expect("i + w should dispatch a word text-object request");
    assert!(matches!(
        &method,
        Method::PaneCopyObject(params)
            if params.cursor == origin
                && params.request
                    == PaneCopyObjectRequest::Object { inside: true, open: 'w', close: 'w', count: 1, word: Some(false) }
    ));
    let _ = state.handle_endpoint_result(request_id, Ok(object_result(PaneTextRange { start: origin, end: origin })));

    state.handle_raw_events(vec![copy_mode_key('a')]);
    let around = state.handle_raw_events(vec![shifted_key('W')]);
    let (_, method) = single_request(&around.actions).expect("a + W should dispatch a big-word text-object request");
    assert!(matches!(
        &method,
        Method::PaneCopyObject(params)
            if params.request
                == PaneCopyObjectRequest::Object { inside: false, open: 'w', close: 'w', count: 1, word: Some(true) }
    ));
}

#[test]
fn copy_mode_bare_w_and_w_still_dispatch_word_motions() {
    let mut state = copy_mode_state_with_scroll(0, 0);

    let word = state.handle_raw_events(vec![copy_mode_key('w')]);
    let (request_id, method) = single_request(&word.actions).expect("bare w should dispatch a word motion");
    assert!(matches!(
        &method,
        Method::PaneCopyMotion(params) if params.motion == PaneCopyMotion::NextWordStart
    ));
    let _ = state.handle_endpoint_result(request_id, Ok(motion_result(PaneTextPoint { row: 0, col: 1 })));

    let big = state.handle_raw_events(vec![shifted_key('W')]);
    let (_, method) = single_request(&big.actions).expect("bare W should dispatch a big-word motion");
    assert!(matches!(
        &method,
        Method::PaneCopyMotion(params) if params.motion == PaneCopyMotion::NextBigWordStart
    ));
}

// ----------------------------------------------------------------- search

#[test]
fn pasted_help_and_copy_queries_normalize_single_line_text() {
    let mut help_query = TextEditor::default();
    assert!(help_query.insert("work\nspace"));
    assert_eq!(chars(&help_query.text), "work space");

    let mut state = ClientShellState::new();
    state.mode = ClientShellMode::Copy;
    state.copy_mode = Some(ClientCopyModeState {
        pane_id: "pane_1".to_string(),
        content_revision: 0,
        geometry: (80, 24),
        alternate_screen_active: false,
        cursor: PaneTextPoint { row: 0, col: 0 },
        offset_from_bottom: 0,
        max_offset_from_bottom: 0,
        entry_offset_from_bottom: 0,
        selection: None,
        search_prompt: Some(ClientCopySearchPrompt {
            direction: PaneCopySearchDirection::Forward,
            query: TextEditor::default(),
            count: 1,
        }),
        search_query: Vec::new(),
        search_direction: None,
        search_matches: Vec::new(),
        search_total: 0,
        search_current: None,
        search_current_global: None,
        search_generation: 0,
        search_cache_generation: None,
        copy_after_search: false,
        pending_count: None,
        pending_find: None,
        pending_text_object: None,
        last_find: None,
    });

    assert!(state.insert_copy_search_text("needle\r\n", &mut ClientShellInput::default()));
    assert_eq!(
        state
            .copy_mode
            .as_ref()
            .and_then(|copy_mode| copy_mode.search_prompt.as_ref())
            .map(|prompt| chars(&prompt.query.text)),
        Some("needle ".to_string())
    );
}

#[test]
fn empty_keyboard_anchor_keeps_search_fallback_revision_guard() {
    let mut state = copy_mode_state_with_scroll(0, 0);
    let search = state.handle_raw_events(vec![
        copy_mode_key('/'),
        shifted_key('L'),
        shifted_key('I'),
        shifted_key('V'),
        shifted_key('E'),
        special_key(KeyCode::Enter),
    ]);
    let (request_id, _) = single_request(&search.actions).expect("search request");
    let found = PaneTextRange { start: PaneTextPoint { row: 0, col: 0 }, end: PaneTextPoint { row: 0, col: 3 } };
    let (_, actions) = state.handle_endpoint_result(request_id, Ok(copy_search_result(Vec::new(), None)));
    let (request_id, method) = single_request(&actions).expect("latest queued live search should dispatch");
    assert_eq!(search_query(&method).as_deref(), Some("LIVE"));
    state.handle_endpoint_result(request_id, Ok(copy_search_result(vec![found], Some(0))));
    state.handle_raw_events(vec![copy_mode_key('v')]);
    assert!(!state.selection.as_ref().unwrap().is_visible());
    let copy = state.handle_raw_events(vec![copy_mode_key('y')]);
    assert!(copy.actions.iter().any(|action| matches!(
        action,
        ClientShellAction::Endpoint { request }
            if matches!(&request.method, Method::PaneSelectionRead(params)
                if params.anchor == found.start
                    && params.cursor == found.end
                    && params.content_revision == Some(0))
    )));
}

#[test]
fn copy_search_owns_prompt_repeat_highlights_selection_and_restore() {
    let mut state = copy_mode_state_with_scroll(0, 20);
    let origin = cursor(&state);

    state.handle_raw_events(vec![shifted_key('?')]);
    assert!(state.copy_mode.as_ref().is_some_and(|mode| {
        mode.search_prompt.as_ref().is_some_and(|prompt| prompt.direction == PaneCopySearchDirection::Backward)
    }));
    state.handle_raw_events(vec![special_key(KeyCode::Esc)]);
    assert!(state.copy_mode.as_ref().is_some_and(|mode| mode.search_prompt.is_none()));

    state.handle_raw_events(vec![copy_mode_key('/')]);
    let junk = state.handle_raw_events(vec![typed("junk")]);
    let (superseded_id, _) = single_request(&junk.actions).expect("prompt edits should dispatch live searches");
    state.handle_raw_events(vec![control_key('u')]);
    state.handle_raw_events(vec![typed("nee")]);
    state.handle_raw_events(vec![RawInputEvent::Paste("dleX".to_string())]);
    state.handle_raw_events(vec![special_key(KeyCode::Backspace)]);
    assert_eq!(
        state.copy_mode.as_ref().and_then(|mode| mode.search_prompt.as_ref()).map(|prompt| chars(&prompt.query.text)),
        Some("needle".to_string())
    );

    let (_, actions) = state.handle_endpoint_result(superseded_id, Ok(copy_search_result(Vec::new(), None)));
    let (request_id, method) =
        single_request(&actions).expect("latest queued search should dispatch after a superseded response");
    assert!(matches!(
        &method,
        Method::PaneCopySearch(params)
            if params.pane_id == "pane_1"
                && chars(&params.query) == "needle"
                && params.direction == PaneCopySearchDirection::Forward
                && params.cursor == origin
                && params.previous.is_none()
    ));
    let matches = vec![
        PaneTextRange { start: PaneTextPoint { row: 5, col: 2 }, end: PaneTextPoint { row: 5, col: 7 } },
        PaneTextRange { start: PaneTextPoint { row: 15, col: 1 }, end: PaneTextPoint { row: 15, col: 6 } },
    ];
    let (repaint, _) = state.handle_endpoint_result(request_id, Ok(copy_search_result(matches.clone(), Some(0))));
    assert!(repaint);

    let mut scrolled_surface = state.pane_surface.clone().expect("pane surface");
    scrolled_surface.panes[0].scroll.as_mut().expect("scroll metrics").offset_from_bottom = 15;
    state.set_pane_surface(scrolled_surface);
    assert_eq!(state.copy_mode.as_ref().map(|mode| mode.cursor), Some(origin));

    let commit = state.handle_raw_events(vec![special_key(KeyCode::Enter)]);
    assert!(commit.actions.is_empty());
    assert_eq!(state.copy_mode.as_ref().map(|mode| mode.cursor), Some(matches[0].start));

    state.handle_raw_events(vec![copy_mode_key('v')]);
    let repeat = state.handle_raw_events(vec![copy_mode_key('n')]);
    let (repeat_id, method) = single_request(&repeat.actions).expect("repeat should use endpoint search");
    assert!(matches!(
        &method,
        Method::PaneCopySearch(params)
            if params.direction == PaneCopySearchDirection::Forward && params.previous == Some(matches[0])
    ));
    let (_, repeat_actions) = state.handle_endpoint_result(repeat_id, Ok(copy_search_result(matches.clone(), Some(1))));
    if let Some(scroll_id) = repeat_actions.iter().find_map(|action| match action {
        ClientShellAction::Endpoint { request } if matches!(request.method, Method::PaneScroll(_)) => Some(request.id),
        _ => None,
    }) {
        state.handle_endpoint_result(scroll_id, Ok(pane_scroll_result(6, 20)));
    }
    assert_eq!(state.copy_mode.as_ref().map(|mode| mode.cursor.row), Some(15));
    assert!(state.selection.as_ref().is_some_and(Selection::is_visible));

    let reverse = state.handle_raw_events(vec![shifted_key('N')]);
    let (reverse_id, method) = single_request(&reverse.actions).expect("reverse search should use endpoint search");
    assert!(matches!(
        &method,
        Method::PaneCopySearch(params)
            if params.direction == PaneCopySearchDirection::Backward && params.previous == Some(matches[1])
    ));
    let (_, reverse_actions) = state.handle_endpoint_result(reverse_id, Ok(copy_search_result(matches.clone(), Some(0))));
    if let Some(scroll_id) = reverse_actions.iter().find_map(|action| match action {
        ClientShellAction::Endpoint { request } if matches!(request.method, Method::PaneScroll(_)) => Some(request.id),
        _ => None,
    }) {
        state.handle_endpoint_result(scroll_id, Ok(pane_scroll_result(15, 20)));
    }

    state.handle_raw_events(vec![special_key(KeyCode::Esc)]);
    assert_eq!(state.mode, ClientShellMode::Copy);
    assert!(state.copy_mode.as_ref().is_some_and(|mode| mode.search_query.is_empty() && mode.selection.is_none()));
    let exit = state.handle_raw_events(vec![special_key(KeyCode::Esc)]);
    assert_eq!(state.mode, ClientShellMode::Terminal);
    assert!(exit.actions.iter().any(|action| matches!(
        action,
        ClientShellAction::Endpoint { request }
            if matches!(&request.method, Method::PaneScroll(params) if params.offset_from_bottom == 0)
    )));
}

#[test]
fn superseded_live_search_skips_response_but_keeps_latest_moving() {
    let mut state = copy_mode_state_with_scroll(0, 20);
    let origin = cursor(&state);

    state.handle_raw_events(vec![copy_mode_key('/')]);
    let first = state.handle_raw_events(vec![typed("a")]);
    let (first_id, method) = single_request(&first.actions).expect("first live search should dispatch");
    assert_eq!(search_query(&method).as_deref(), Some("a"));

    let edit = state.handle_raw_events(vec![typed("b")]);
    assert!(edit.actions.is_empty());
    assert!(matches!(
        state.copy_operation_queue.front(),
        Some(ClientCopyOperation::Search { query, repeat: false, .. }) if chars(query) == "ab"
    ));

    let found = vec![PaneTextRange { start: PaneTextPoint { row: 21, col: 0 }, end: PaneTextPoint { row: 21, col: 2 } }];
    let (_, actions) = state.handle_endpoint_result(first_id, Ok(copy_search_result(found.clone(), Some(0))));
    let (latest_id, method) = single_request(&actions).expect("latest queued search should dispatch after supersession");
    assert_eq!(search_query(&method).as_deref(), Some("ab"));
    assert!(state.copy_mode.as_ref().is_some_and(|mode| mode.search_matches.is_empty() && mode.search_query.is_empty()));
    assert_eq!(state.copy_mode.as_ref().map(|mode| mode.cursor), Some(origin));

    let changed = changed_content(&state);
    state.set_pane_surface(changed);
    let (_, actions) = state.handle_endpoint_result(latest_id, Ok(copy_search_result(found, Some(0))));
    assert!(actions.is_empty());
    assert!(!state.copy_operation_in_flight);
    assert!(state.copy_operation_queue.is_empty());
    assert!(state.copy_mode.as_ref().is_some_and(|mode| mode.search_matches.is_empty()));
}

#[test]
fn copy_search_prompt_esc_cancels_queued_and_in_flight_searches() {
    let mut state = copy_mode_state_with_scroll(0, 0);
    let origin = cursor(&state);

    state.handle_raw_events(vec![copy_mode_key('/')]);
    let first = state.handle_raw_events(vec![typed("a")]);
    let (first_id, method) = single_request(&first.actions).expect("first live search should dispatch");
    assert_eq!(search_query(&method).as_deref(), Some("a"));

    let edit = state.handle_raw_events(vec![typed("b")]);
    assert!(edit.actions.is_empty());
    assert!(matches!(state.copy_operation_queue.front(), Some(ClientCopyOperation::Search { .. })));

    state.handle_raw_events(vec![special_key(KeyCode::Esc)]);
    assert!(state.copy_mode.as_ref().is_some_and(|mode| mode.search_prompt.is_none()));
    assert!(state
        .copy_operation_queue
        .iter()
        .all(|operation| !matches!(operation, ClientCopyOperation::Search { .. })));

    let found = vec![PaneTextRange { start: PaneTextPoint { row: 21, col: 0 }, end: PaneTextPoint { row: 21, col: 2 } }];
    let (_, actions) = state.handle_endpoint_result(first_id, Ok(copy_search_result(found, Some(0))));
    assert!(actions.is_empty());
    assert!(!state.copy_operation_in_flight);
    assert!(state.copy_operation_queue.is_empty());
    assert_eq!(state.copy_mode.as_ref().map(|mode| mode.cursor), Some(origin));
}

#[test]
fn enter_commit_leaves_superseded_live_response_unapplied() {
    let mut state = copy_mode_state_with_scroll(0, 20);
    let origin = cursor(&state);

    state.handle_raw_events(vec![copy_mode_key('/')]);
    let first = state.handle_raw_events(vec![typed("a")]);
    let (first_id, method) = single_request(&first.actions).expect("first live search should dispatch");
    assert_eq!(search_query(&method).as_deref(), Some("a"));

    let edit = state.handle_raw_events(vec![typed("b")]);
    assert!(edit.actions.is_empty());
    assert!(matches!(
        state.copy_operation_queue.front(),
        Some(ClientCopyOperation::Search { query, repeat: false, .. }) if chars(query) == "ab"
    ));

    state.handle_raw_events(vec![special_key(KeyCode::Enter)]);
    assert!(state.copy_mode.as_ref().is_some_and(|mode| mode.search_prompt.is_none()));

    let found = vec![PaneTextRange { start: PaneTextPoint { row: 21, col: 0 }, end: PaneTextPoint { row: 21, col: 2 } }];
    let (_, actions) = state.handle_endpoint_result(first_id, Ok(copy_search_result(found, Some(0))));
    let (_, method) = single_request(&actions).expect("queued newer search should dispatch after supersession");
    assert!(matches!(
        &method,
        Method::PaneCopySearch(params)
            if chars(&params.query) == "ab" && params.direction == PaneCopySearchDirection::Forward
    ));
    assert_eq!(state.copy_mode.as_ref().map(|mode| mode.cursor), Some(origin));
    assert!(state.copy_mode.as_ref().is_some_and(|mode| mode.search_query.is_empty() && mode.search_matches.is_empty()));
}

#[test]
fn enter_with_erased_query_invalidates_in_flight_search() {
    let mut state = copy_mode_state_with_scroll(0, 20);
    let origin = cursor(&state);

    state.handle_raw_events(vec![copy_mode_key('/')]);
    let first = state.handle_raw_events(vec![typed("a")]);
    let (first_id, _) = single_request(&first.actions).expect("first live search should dispatch");

    state.handle_raw_events(vec![special_key(KeyCode::Backspace)]);
    assert!(state
        .copy_mode
        .as_ref()
        .is_some_and(|mode| mode.search_prompt.as_ref().is_some_and(|prompt| prompt.query.text.is_empty())));

    state.handle_raw_events(vec![special_key(KeyCode::Enter)]);
    assert!(state.copy_mode.as_ref().is_some_and(|mode| mode.search_prompt.is_none()));
    assert!(state
        .copy_operation_queue
        .iter()
        .all(|operation| !matches!(operation, ClientCopyOperation::Search { .. })));

    let found = vec![PaneTextRange { start: PaneTextPoint { row: 21, col: 0 }, end: PaneTextPoint { row: 21, col: 2 } }];
    let (_, actions) = state.handle_endpoint_result(first_id, Ok(copy_search_result(found, Some(0))));
    assert!(actions.is_empty());
    assert_eq!(state.copy_mode.as_ref().map(|mode| mode.cursor), Some(origin));
    assert!(state.copy_mode.as_ref().is_some_and(|mode| mode.search_query.is_empty() && mode.search_matches.is_empty()));
}

#[test]
fn enter_after_edit_cycle_back_to_same_query_rejects_original_in_flight_search() {
    let mut state = copy_mode_state_with_scroll(0, 20);
    let origin = cursor(&state);

    state.handle_raw_events(vec![copy_mode_key('/')]);
    let first = state.handle_raw_events(vec![typed("a")]);
    let (first_id, method) = single_request(&first.actions).expect("first live search should dispatch");
    assert_eq!(search_query(&method).as_deref(), Some("a"));

    state.handle_raw_events(vec![typed("b")]);
    state.handle_raw_events(vec![special_key(KeyCode::Backspace)]);
    assert!(matches!(
        state.copy_operation_queue.front(),
        Some(ClientCopyOperation::Search { query, repeat: false, .. }) if chars(query) == "a"
    ));

    state.handle_raw_events(vec![special_key(KeyCode::Enter)]);

    let found = vec![PaneTextRange { start: PaneTextPoint { row: 21, col: 0 }, end: PaneTextPoint { row: 21, col: 2 } }];
    let (_, actions) = state.handle_endpoint_result(first_id, Ok(copy_search_result(found, Some(0))));
    let (replacement_id, method) =
        single_request(&actions).expect("same-query replacement should dispatch after supersession");
    assert_eq!(search_query(&method).as_deref(), Some("a"));
    assert_eq!(state.copy_mode.as_ref().map(|mode| mode.cursor), Some(origin));
    let (_, actions) = state.handle_endpoint_result(
        replacement_id,
        Ok(copy_search_result(
            vec![PaneTextRange { start: PaneTextPoint { row: 5, col: 2 }, end: PaneTextPoint { row: 5, col: 7 } }],
            Some(0),
        )),
    );
    assert_eq!(state.copy_mode.as_ref().map(|mode| mode.cursor), Some(PaneTextPoint { row: 5, col: 2 }));
    assert!(actions.iter().any(|action| matches!(
        action,
        ClientShellAction::Endpoint { request } if matches!(&request.method, Method::PaneScroll(_))
    )));
}

#[test]
fn new_content_revision_invalidates_copy_search_coordinates() {
    let mut state = copy_mode_state_with_scroll(0, 0);
    let mut pane_surface = state.pane_surface.clone().expect("pane surface");
    let copy_mode = state.copy_mode.as_mut().expect("copy mode");
    copy_mode.search_query = "needle".chars().collect();
    copy_mode
        .search_matches
        .push(PaneTextRange { start: PaneTextPoint { row: 0, col: 0 }, end: PaneTextPoint { row: 0, col: 1 } });
    copy_mode.search_total = 1;
    copy_mode.search_current = Some(0);
    copy_mode.search_current_global = Some(0);

    pane_surface.panes[0].content_revision = 2;
    state.set_pane_surface(pane_surface);
    let copy_mode = state.copy_mode.as_ref().expect("copy mode retained");
    assert!(copy_mode.search_matches.is_empty());
    assert_eq!(copy_mode.search_total, 0);
    assert_eq!(copy_mode.search_current, None);
}

#[test]
fn enter_commit_waits_for_fresh_search_instead_of_cached_result() {
    let mut state = copy_mode_state_with_scroll(0, 20);
    let origin = cursor(&state);

    state.handle_raw_events(vec![copy_mode_key('2')]);
    state.handle_raw_events(vec![copy_mode_key('/')]);
    let first = state.handle_raw_events(vec![typed("a")]);
    let (first_id, _) = single_request(&first.actions).expect("first live search should dispatch");

    state.handle_endpoint_result(first_id, Ok(copy_search_result(vec![copy_match(21, 0), copy_match(25, 0)], Some(0))));
    assert!(state.copy_mode.as_ref().is_some_and(|mode| chars(&mode.search_query) == "a"));
    assert_eq!(cursor(&state), origin);

    let edit = state.handle_raw_events(vec![typed("b")]);
    let (second_id, method) =
        single_request(&edit.actions).expect("edited query should dispatch after the first result settled");
    assert_eq!(search_query(&method).as_deref(), Some("ab"));
    state.handle_raw_events(vec![special_key(KeyCode::Backspace)]);
    assert!(matches!(
        state.copy_operation_queue.front(),
        Some(ClientCopyOperation::Search { query, repeat: false, .. }) if chars(query) == "a"
    ));

    state.handle_raw_events(vec![special_key(KeyCode::Enter)]);
    assert_eq!(cursor(&state), origin);

    let (_, actions) =
        state.handle_endpoint_result(second_id, Ok(copy_search_result(vec![copy_match(21, 0), copy_match(25, 0)], Some(0))));
    let (replacement_id, method) = single_request(&actions).expect("fresh latest query should dispatch after Enter");
    assert_eq!(search_query(&method).as_deref(), Some("a"));
    assert_eq!(cursor(&state), origin);
    let (_, actions) = state.handle_endpoint_result(
        replacement_id,
        Ok(copy_search_result(vec![copy_match(21, 0), copy_match(25, 0)], Some(0))),
    );
    assert_eq!(cursor(&state), copy_match(21, 0).start, "first fresh advance");
    let (repeat_id, method) = single_request(&actions).expect("count-1 repeat should dispatch after the fresh search");
    assert_eq!(search_query(&method).as_deref(), Some("a"));
    let (_, actions) =
        state.handle_endpoint_result(repeat_id, Ok(copy_search_result(vec![copy_match(21, 0), copy_match(25, 0)], Some(1))));
    assert!(actions.is_empty(), "count 2 is exhausted after two advances");
    assert_eq!(cursor(&state), copy_match(25, 0).start, "no extra advance from the cached result");
}

#[test]
fn cancelled_search_prompt_frees_the_pipeline_immediately() {
    let mut state = copy_mode_state_with_scroll(0, 20);
    state.handle_raw_events(vec![copy_mode_key('/')]);
    let first = state.handle_raw_events(vec![typed("a")]);
    let (first_id, _) = single_request(&first.actions).expect("live search should dispatch");
    state.handle_raw_events(vec![special_key(KeyCode::Esc)]);
    assert!(!state.copy_operation_in_flight, "pipeline must be retired");
    state.handle_raw_events(vec![copy_mode_key('q')]);
    assert_eq!(state.mode, ClientShellMode::Terminal);
    assert!(state.copy_mode.is_none());
    let (_, actions) = state.handle_endpoint_result(first_id, Ok(copy_search_result(vec![copy_match(21, 0)], Some(0))));
    assert!(actions.is_empty(), "late success must be ignored");

    let mut state = copy_mode_state_with_scroll(0, 20);
    state.handle_raw_events(vec![copy_mode_key('/')]);
    let first = state.handle_raw_events(vec![typed("a")]);
    let (first_id, _) = single_request(&first.actions).expect("live search should dispatch");
    state.handle_raw_events(vec![special_key(KeyCode::Esc)]);
    let (_, actions) = state.handle_endpoint_result(first_id, Err(endpoint_error("endpoint_timeout", "timed out")));
    assert!(actions.is_empty());
    assert!(state.visible_endpoint_notice.is_none(), "retired pipelines must not emit bogus notices");

    let mut state = copy_mode_state_with_scroll(0, 20);
    let origin = cursor(&state);
    state.handle_raw_events(vec![copy_mode_key('/')]);
    let first = state.handle_raw_events(vec![typed("a")]);
    let (first_id, _) = single_request(&first.actions).expect("live search should dispatch");
    state.handle_raw_events(vec![special_key(KeyCode::Backspace)]);
    state.handle_raw_events(vec![special_key(KeyCode::Enter)]);
    assert!(!state.copy_operation_in_flight);
    state.handle_raw_events(vec![copy_mode_key('k')]);
    assert_eq!(cursor(&state).row, origin.row - 1, "motion keys must run immediately after cancellation");
    let (_, actions) = state.handle_endpoint_result(first_id, Ok(copy_search_result(vec![copy_match(21, 0)], Some(0))));
    assert!(actions.is_empty());
    assert_eq!(cursor(&state).row, origin.row - 1, "the stale response must not move the cursor");
}

#[test]
fn coordinate_invalid_search_response_cancels_queued_searches() {
    let mut state = copy_mode_state_with_scroll(0, 20);
    let origin = cursor(&state);

    state.handle_raw_events(vec![copy_mode_key('/')]);
    let first = state.handle_raw_events(vec![typed("a")]);
    let (first_id, _) = single_request(&first.actions).expect("live search should dispatch");
    state.handle_raw_events(vec![typed("b")]);
    assert!(matches!(
        state.copy_operation_queue.front(),
        Some(ClientCopyOperation::Search { query, .. }) if chars(query) == "ab"
    ));

    let changed = changed_content(&state);
    state.set_pane_surface(changed);

    let (_, actions) = state.handle_endpoint_result(first_id, Ok(copy_search_result(vec![copy_match(21, 0)], Some(0))));
    assert!(actions.is_empty(), "queued searches must not dispatch from a coordinate-invalid response");
    assert!(state.copy_operation_queue.is_empty());
    assert!(!state.copy_operation_in_flight);
    assert_eq!(cursor(&state), origin);
}

#[test]
fn cached_commit_requeries_after_surface_invalidation() {
    for invalidation in ["resize", "content"] {
        let mut state = copy_mode_state_with_scroll(0, 20);
        let origin = cursor(&state);
        state.handle_raw_events(vec![copy_mode_key('/')]);
        let typed_query = state.handle_raw_events(vec![typed("a")]);
        let (live_id, _) = single_request(&typed_query.actions).expect("live search should dispatch");
        state.handle_endpoint_result(live_id, Ok(copy_search_result(vec![copy_match(21, 0), copy_match(25, 0)], Some(0))));
        assert_eq!(cursor(&state), origin);

        let mut changed = state.pane_surface.clone().unwrap();
        changed.surface_revision += 1;
        match invalidation {
            "resize" => changed.panes[0].inner_rect.width = 3,
            "content" => changed.panes[0].content_revision = 2,
            _ => unreachable!(),
        }
        state.set_pane_surface(changed);

        let commit = state.handle_raw_events(vec![special_key(KeyCode::Enter)]);
        let Some((_, method)) = single_request(&commit.actions) else {
            panic!("Enter after {invalidation} must dispatch a fresh search");
        };
        assert_eq!(search_query(&method).as_deref(), Some("a"));
    }
}

#[test]
fn valid_cached_no_match_enter_does_not_requery() {
    let mut state = copy_mode_state_with_scroll(0, 20);
    for _ in 0..2 {
        state.handle_raw_events(vec![copy_mode_key('/')]);
        let typed_query = state.handle_raw_events(vec![typed("a")]);
        let (live_id, _) = single_request(&typed_query.actions).expect("live search should dispatch");
        state.handle_endpoint_result(live_id, Ok(copy_search_result(Vec::new(), None)));
        assert!(state
            .copy_mode
            .as_ref()
            .is_some_and(|mode| chars(&mode.search_query) == "a" && mode.search_matches.is_empty()));
        let commit = state.handle_raw_events(vec![special_key(KeyCode::Enter)]);
        assert!(commit.actions.is_empty(), "no duplicate query for a no-match");
        assert!(state.copy_operation_queue.is_empty());
        assert!(state.pending_requests.is_empty());
        assert_eq!(state.mode, ClientShellMode::Copy);
    }
}
