use bashers::pane::{PodPane, MAX_LOG_LINES};
use bashers::shared::SharedState;
use bashers::state::{KeyAction, TuiState};
use bashers::term::{Color, KeyCode, KeyModifiers, MouseButton, MouseEvent, MouseEventKind, Rect};

fn make_pane(key: &str, n_lines: usize) -> PodPane {
    let mut pane = PodPane::new(key.to_string(), Color::Cyan, true);
    for i in 0..n_lines {
        pane.push_line(format!("line {i}"));
    }
    pane
}

fn make_state(keys: &[&str], lines_per_pane: usize) -> TuiState {
    let mut state = TuiState::new();
    for key in keys {
        state.add_pane(make_pane(key, lines_per_pane));
    }
    state
}

fn press_key(state: &mut TuiState, code: KeyCode, shared: &mut SharedState) -> KeyAction {
    state.handle_key(code, KeyModifiers::none(), 20, 48, shared)
}

#[test]
fn tui_test_pod_pane_new_defaults() {
    let pane = PodPane::new("ns/pod".to_string(), Color::Green, true);
    assert_eq!(pane.key, "ns/pod");
    assert!(pane.lines.is_empty());
    assert!(pane.is_following());
    assert_eq!(pane.scroll_offset(10), 0);
}

#[test]
fn tui_test_pod_pane_push_line() {
    let mut pane = make_pane("ns/pod", 0);
    pane.push_line("hello".to_string());
    pane.push_line("world".to_string());
    assert_eq!(pane.lines.len(), 2);
    assert_eq!(pane.lines[0], "hello");
    assert_eq!(pane.lines[1], "world");
}

#[test]
fn tui_test_pod_pane_push_line_caps_at_max() {
    let mut pane = make_pane("ns/pod", MAX_LOG_LINES);
    assert_eq!(pane.lines.len(), MAX_LOG_LINES);
    pane.push_line("overflow".to_string());
    assert_eq!(pane.lines.len(), MAX_LOG_LINES);
    assert_eq!(pane.lines.back().unwrap(), "overflow");
    assert_eq!(pane.lines.front().unwrap(), "line 1");
}

#[test]
fn tui_test_pod_pane_scroll_offset_following() {
    let pane = make_pane("ns/pod", 100);
    assert_eq!(pane.scroll_offset(20), 80);
}

#[test]
fn tui_test_pod_pane_scroll_offset_fewer_lines_than_height() {
    let pane = make_pane("ns/pod", 5);
    assert_eq!(pane.scroll_offset(20), 0);
}

#[test]
fn tui_test_pod_pane_scroll_offset_scrolled() {
    let mut pane = make_pane("ns/pod", 100);
    pane.scroll_up = Some(10);
    assert_eq!(pane.scroll_offset(20), 10);
}

#[test]
fn tui_test_pod_pane_scroll_offset_at_top() {
    let mut pane = make_pane("ns/pod", 100);
    pane.scroll_up = Some(0);
    assert_eq!(pane.scroll_offset(20), 0);
}

#[test]
fn tui_test_pod_pane_scroll_offset_clamped_to_auto() {
    let mut pane = make_pane("ns/pod", 100);
    pane.scroll_up = Some(200);
    assert_eq!(pane.scroll_offset(20), 80);
}

#[test]
fn tui_test_pod_pane_is_following() {
    let mut pane = make_pane("ns/pod", 10);
    assert!(pane.is_following());
    pane.scroll_up = Some(5);
    assert!(!pane.is_following());
    pane.scroll_up = None;
    assert!(pane.is_following());
}

#[test]
fn tui_test_tui_state_add_pane_and_rebuild() {
    let mut state = make_state(&["ns/a", "ns/b", "ns/c"], 0);
    assert_eq!(state.pane_index.get("ns/a"), Some(&0));
    assert_eq!(state.pane_index.get("ns/b"), Some(&1));
    assert_eq!(state.pane_index.get("ns/c"), Some(&2));
    assert_eq!(state.pane_index.len(), 3);

    state.panes.remove(1);
    state.rebuild_index();
    assert_eq!(state.pane_index.get("ns/a"), Some(&0));
    assert_eq!(state.pane_index.get("ns/c"), Some(&1));
    assert_eq!(state.pane_index.len(), 2);
}

#[test]
fn test_handle_normal_mode_quit() {
    let mut shared = SharedState::new(false, vec![]);
    let mut state = make_state(&["ns/a"], 10);

    assert!(matches!(
        press_key(&mut state, KeyCode::Char('q'), &mut shared),
        KeyAction::Quit
    ));
    assert!(!shared.running);
}

#[test]
fn test_handle_normal_mode_tab_cycles() {
    let mut shared = SharedState::new(false, vec![]);
    let mut state = make_state(&["ns/a", "ns/b", "ns/c"], 0);

    for expected in [1, 2, 0] {
        press_key(&mut state, KeyCode::Tab, &mut shared);
        assert_eq!(state.selected, expected);
    }
}

#[test]
fn test_handle_normal_mode_expand_toggle() {
    let mut shared = SharedState::new(false, vec![]);
    let mut state = make_state(&["ns/a"], 0);

    press_key(&mut state, KeyCode::Char('f'), &mut shared);
    assert!(state.expanded);
    press_key(&mut state, KeyCode::Char('f'), &mut shared);
    assert!(!state.expanded);
}

#[test]
fn test_handle_normal_mode_esc_collapses() {
    let mut shared = SharedState::new(false, vec![]);
    let mut state = make_state(&["ns/a"], 0);
    state.expanded = true;

    press_key(&mut state, KeyCode::Esc, &mut shared);
    assert!(!state.expanded);
}

#[test]
fn test_handle_normal_mode_delete_pane() {
    let mut shared = SharedState::new(false, vec![]);
    let mut state = make_state(&["ns/a", "ns/b", "ns/c"], 0);
    state.selected = 1;

    press_key(&mut state, KeyCode::Char('d'), &mut shared);

    assert_eq!(state.panes.len(), 2);
    assert_eq!(state.panes[0].key, "ns/a");
    assert_eq!(state.panes[1].key, "ns/c");
    assert!(shared.closed_pods.contains("ns/b"));
    assert_eq!(state.selected, 1);
}

#[test]
fn test_handle_normal_mode_delete_last_pane_clamps_selected() {
    let mut shared = SharedState::new(false, vec![]);
    let mut state = make_state(&["ns/a", "ns/b", "ns/c"], 0);
    state.selected = 2;

    press_key(&mut state, KeyCode::Char('d'), &mut shared);

    assert_eq!(state.panes.len(), 2);
    assert_eq!(state.selected, 1);
}

#[test]
fn test_handle_normal_mode_scroll_up_down() {
    let mut shared = SharedState::new(false, vec![]);
    let mut state = make_state(&["ns/a"], 100);

    assert!(state.panes[0].is_following());

    press_key(&mut state, KeyCode::Up, &mut shared);
    assert_eq!(state.panes[0].scroll_up, Some(79));

    press_key(&mut state, KeyCode::Up, &mut shared);
    assert_eq!(state.panes[0].scroll_up, Some(78));

    press_key(&mut state, KeyCode::Down, &mut shared);
    assert_eq!(state.panes[0].scroll_up, Some(79));

    press_key(&mut state, KeyCode::Down, &mut shared);
    assert!(state.panes[0].is_following());
}

#[test]
fn test_handle_normal_mode_end_resumes_follow() {
    let mut shared = SharedState::new(false, vec![]);
    let mut state = make_state(&["ns/a"], 100);
    state.panes[0].scroll_up = Some(50);

    press_key(&mut state, KeyCode::End, &mut shared);
    assert!(state.panes[0].is_following());
}

#[test]
fn test_handle_normal_mode_home_scrolls_to_top() {
    let mut shared = SharedState::new(false, vec![]);
    let mut state = make_state(&["ns/a"], 100);

    press_key(&mut state, KeyCode::Home, &mut shared);
    assert_eq!(state.panes[0].scroll_up, Some(0));
    assert_eq!(state.panes[0].scroll_offset(20), 0);
}

#[test]
fn test_handle_normal_mode_input_mode() {
    let mut shared = SharedState::new(false, vec![]);
    let mut state = make_state(&["ns/a"], 0);

    press_key(&mut state, KeyCode::Char('a'), &mut shared);
    assert!(state.input_mode);
}

#[test]
fn tui_test_scroll_to_scrollbar_pos_outside_scrollbar_col() {
    let rect = Rect::new(0, 0, 80, 20);
    let mut pane = make_pane("ns/a", 100);
    TuiState::scroll_to_scrollbar_pos(10, 5, &rect, &mut pane);
    assert!(pane.is_following());
}

#[test]
fn tui_test_scroll_to_scrollbar_pos_on_scrollbar() {
    let rect = Rect::new(0, 0, 80, 22);
    let mut pane = make_pane("ns/a", 100);
    TuiState::scroll_to_scrollbar_pos(79, 1, &rect, &mut pane);
    assert!(!pane.is_following());
}

#[test]
fn tui_test_scroll_to_scrollbar_pos_bottom_of_scrollbar() {
    let rect = Rect::new(0, 0, 80, 22);
    let mut pane = make_pane("ns/a", 100);
    let inner_height = 20usize;
    let max_scroll = 100 - inner_height;
    TuiState::scroll_to_scrollbar_pos(79, 20, &rect, &mut pane);
    let expected_pos = (19 * max_scroll) / inner_height;
    assert_eq!(pane.scroll_up, Some(expected_pos));
}

#[test]
fn tui_test_handle_mouse_scroll_up() {
    let mut state = make_state(&["ns/a", "ns/b"], 0);
    for _ in 0..100 {
        state.panes[0].push_line("x".to_string());
    }
    for _ in 0..50 {
        state.panes[1].push_line("x".to_string());
    }
    state.pane_rects = vec![
        (0, Rect::new(0, 0, 80, 20)),
        (1, Rect::new(0, 20, 80, 20)),
    ];

    let mouse = MouseEvent {
        kind: MouseEventKind::ScrollUp,
        column: 10,
        row: 25,
        modifiers: KeyModifiers::none(),
    };
    state.handle_mouse(mouse, 0, 48);

    assert_eq!(state.selected, 1);
    let inner_h = 18;
    let auto = 50usize.saturating_sub(inner_h);
    assert_eq!(state.panes[1].scroll_up, Some(auto.saturating_sub(3)));
}

#[test]
fn tui_test_handle_mouse_click_selects_pane() {
    let mut state = make_state(&["ns/a", "ns/b"], 10);
    state.pane_rects = vec![
        (0, Rect::new(0, 0, 80, 20)),
        (1, Rect::new(0, 20, 80, 20)),
    ];

    let mouse = MouseEvent {
        kind: MouseEventKind::Down(MouseButton::Left),
        column: 10,
        row: 25,
        modifiers: KeyModifiers::none(),
    };
    state.handle_mouse(mouse, 0, 48);

    assert_eq!(state.selected, 1);
}

#[test]
fn tui_test_max_panes_per_tab() {
    let state = TuiState::new();
    assert_eq!(state.max_panes_per_tab(48), 4);
    assert_eq!(state.max_panes_per_tab(24), 2);
    assert_eq!(state.max_panes_per_tab(12), 1);
    assert_eq!(state.max_panes_per_tab(6), 1);
}

#[test]
fn tui_test_total_tabs() {
    let state = make_state(&["a", "b", "c", "d", "e", "f", "g", "h", "i", "j"], 0);
    assert_eq!(state.total_tabs(48), 3);
    assert_eq!(state.total_tabs(24), 5);
    assert_eq!(state.total_tabs(120), 1);
}

#[test]
fn tui_test_total_tabs_empty() {
    let state = TuiState::new();
    assert_eq!(state.total_tabs(48), 1);
}

#[test]
fn tui_test_visible_indices_first_tab() {
    let state = make_state(&["a", "b", "c", "d", "e", "f", "g", "h"], 0);
    let vis = state.visible_indices(48);
    assert_eq!(vis, vec![0, 1, 2, 3]);
}

#[test]
fn tui_test_visible_indices_second_tab() {
    let mut state = make_state(&["a", "b", "c", "d", "e", "f", "g", "h"], 0);
    state.current_tab = 1;
    let vis = state.visible_indices(48);
    assert_eq!(vis, vec![4, 5, 6, 7]);
}

#[test]
fn tui_test_visible_indices_last_tab_partial() {
    let mut state = make_state(&["a", "b", "c", "d", "e"], 0);
    state.current_tab = 1;
    let vis = state.visible_indices(48);
    assert_eq!(vis, vec![4]);
}

#[test]
fn tui_test_visible_indices_expanded_overrides_tabs() {
    let mut state = make_state(&["a", "b", "c", "d", "e"], 0);
    state.selected = 3;
    state.expanded = true;
    let vis = state.visible_indices(48);
    assert_eq!(vis, vec![3]);
}

#[test]
fn tui_test_ensure_selected_visible() {
    let mut state = make_state(&["a", "b", "c", "d", "e", "f", "g", "h"], 0);
    state.selected = 5;
    state.ensure_selected_visible(48);
    assert_eq!(state.current_tab, 1);
}

#[test]
fn tui_test_tab_navigation_left_right() {
    let mut shared = SharedState::new(false, vec![]);
    let mut state = make_state(&["a", "b", "c", "d", "e", "f", "g", "h"], 0);

    state.handle_key(KeyCode::Right, KeyModifiers::none(), 20, 48, &mut shared);
    assert_eq!(state.current_tab, 1);
    assert_eq!(state.selected, 4);

    state.handle_key(KeyCode::Left, KeyModifiers::none(), 20, 48, &mut shared);
    assert_eq!(state.current_tab, 0);
    assert_eq!(state.selected, 0);

    state.handle_key(KeyCode::Left, KeyModifiers::none(), 20, 48, &mut shared);
    assert_eq!(state.current_tab, 0);
}

#[test]
fn tui_test_tab_auto_switch_on_cycle() {
    let mut shared = SharedState::new(false, vec![]);
    let mut state = make_state(&["a", "b", "c", "d", "e", "f", "g", "h"], 0);
    state.selected = 3;

    state.handle_key(KeyCode::Tab, KeyModifiers::none(), 20, 48, &mut shared);
    assert_eq!(state.selected, 4);
    assert_eq!(state.current_tab, 1);
}

#[test]
fn tui_test_few_panes_no_tabs() {
    let state = make_state(&["a", "b"], 0);
    assert_eq!(state.total_tabs(48), 1);
    assert_eq!(state.visible_indices(48), vec![0, 1]);
}
