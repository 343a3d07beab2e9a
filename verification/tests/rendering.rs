use toolbox_launcher::grid::columns_for_width;
use toolbox_launcher::grid::needs_row_break;
use toolbox_launcher::text::compose_launch_error;
use toolbox_launcher::text::display_path;
use toolbox_launcher::text::matches_query;

#[test]
fn column_count_is_width_over_button_footprint() {
    assert_eq!(columns_for_width(990, 100, 10), 9);
    assert_eq!(columns_for_width(989, 100, 10), 8);
    assert_eq!(columns_for_width(110, 100, 10), 1);
}

#[test]
fn column_count_is_at_least_one() {
    assert_eq!(columns_for_width(0, 100, 10), 1);
    assert_eq!(columns_for_width(109, 100, 10), 1);
}

#[test]
fn row_breaks_fall_on_positive_multiples_of_the_column_count() {
    assert!(!needs_row_break(0, 3));
    assert!(!needs_row_break(1, 3));
    assert!(!needs_row_break(2, 3));
    assert!(needs_row_break(3, 3));
    assert!(!needs_row_break(4, 3));
    assert!(needs_row_break(6, 3));
}

#[test]
fn tooltip_path_drops_the_tools_prefix_and_uses_forward_slashes() {
    assert_eq!(display_path(".\\tools\\disk\\chk.exe"), "disk/chk.exe".to_string());
}

#[test]
fn tooltip_path_without_the_prefix_only_changes_slashes() {
    assert_eq!(display_path("C:\\Windows\\notepad.exe"), "C:/Windows/notepad.exe".to_string());
    assert_eq!(display_path("plain.exe"), "plain.exe".to_string());
    assert_eq!(display_path(""), String::new());
}

#[test]
fn error_message_names_the_tool_and_its_path() {
    assert_eq!(
        compose_launch_error("DiskCheck", "tools\\disk\\chk.exe"),
        "找不到工具：DiskCheck\n路径：tools\\disk\\chk.exe".to_string()
    );
}

#[test]
fn query_matching_folds_case_in_both_directions() {
    assert!(matches_query("DiskCheck", "diskcheck"));
    assert!(matches_query("diskcheck", "DISKCHECK"));
    assert!(matches_query("DiskCheck", "kch"));
    assert!(!matches_query("DiskCheck", "checkk"));
}

#[test]
fn query_matching_handles_text_without_case() {
    assert!(matches_query("屏幕测试", "屏幕"));
    assert!(!matches_query("屏幕测试", "硬盘"));
}

#[test]
fn empty_query_matches_every_name() {
    assert!(matches_query("DiskCheck", ""));
    assert!(matches_query("", ""));
}
