use toolbox_launcher::dispatch::LaunchQueue;
use toolbox_launcher::registry::Registry;
use toolbox_launcher::registry::Tool;
use toolbox_launcher::state::AppState;
use toolbox_launcher::state::resolve_version;

fn one_tool_registry() -> Registry {
    Registry::new(
        vec!["Disk".to_string()],
        vec![Tool::new(
            "DiskCheck".to_string(),
            "Disk".to_string(),
            "tools\\disk\\chk.exe".to_string(),
        )],
    )
}

#[test]
fn launch_with_missing_path_reports_name_and_path() {
    let reg = one_tool_registry();
    let mut state = AppState::new("v".to_string());
    let launched = state.request_launch(&reg, 0, false);
    assert!(!launched);
    assert_eq!(
        state.pending_error,
        Some("找不到工具：DiskCheck\n路径：tools\\disk\\chk.exe".to_string())
    );
}

#[test]
fn launch_with_existing_path_leaves_no_error() {
    let reg = one_tool_registry();
    let mut state = AppState::new("v".to_string());
    let launched = state.request_launch(&reg, 0, true);
    assert!(launched);
    assert_eq!(state.pending_error, None);
}

#[test]
fn launch_out_of_bounds_is_ignored() {
    let reg = one_tool_registry();
    let mut state = AppState::new("v".to_string());
    let launched = state.request_launch(&reg, 1, true);
    assert!(!launched);
    assert_eq!(state.pending_error, None);
    assert_eq!(state.selected_category, 0);
}

#[test]
fn dismissing_clears_the_pending_error() {
    let reg = one_tool_registry();
    let mut state = AppState::new("v".to_string());
    state.request_launch(&reg, 0, false);
    assert!(state.pending_error.is_some());
    state.dismiss_error();
    assert_eq!(state.pending_error, None);
    state.dismiss_error();
    assert_eq!(state.pending_error, None);
}

#[test]
fn a_failed_launch_does_not_block_later_launches() {
    let reg = one_tool_registry();
    let mut state = AppState::new("v".to_string());
    state.request_launch(&reg, 0, false);
    state.dismiss_error();
    let launched = state.request_launch(&reg, 0, true);
    assert!(launched);
    assert_eq!(state.pending_error, None);
}

#[test]
fn queue_hands_clicks_out_in_order() {
    let mut q = LaunchQueue::new();
    assert_eq!(q.take_next(), None);
    q.enqueue(2);
    q.enqueue(0);
    q.enqueue(2);
    assert_eq!(q.take_next(), Some(2));
    assert_eq!(q.take_next(), Some(0));
    assert_eq!(q.take_next(), Some(2));
    assert_eq!(q.take_next(), None);
}

#[test]
fn version_text_comes_from_the_marker_when_read() {
    assert_eq!(resolve_version(Some("2024.09".to_string())), "2024.09".to_string());
}

#[test]
fn version_text_falls_back_when_the_marker_is_missing() {
    assert_eq!(resolve_version(None), "未知".to_string());
}

#[test]
fn new_state_starts_clean() {
    let mut state = AppState::new("1.0".to_string());
    assert_eq!(state.selected_category, 0);
    assert_eq!(state.search_query, String::new());
    assert_eq!(state.pending_error, None);
    assert_eq!(state.version_label, "1.0".to_string());
    state.set_search("abc".to_string());
    assert_eq!(state.search_query, "abc".to_string());
    assert_eq!(state.pending_error, None);
}
