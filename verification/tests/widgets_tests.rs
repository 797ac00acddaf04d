use docgen_rs::git_diff::GitFileChange;
use docgen_rs::tui::app::{App, UserInfo, UserInfoField};
use docgen_rs::tui::widgets::{
    branch_entry_text, branch_panel_notice, cost_label, cost_level, diff_preview, short_file_name,
    shown_field_value, status_tone, CostLevel, StatusTone,
};

#[test]
fn cost_levels_by_tokens() {
    assert!(cost_level(0) == CostLevel::Low);
    assert!(cost_level(999) == CostLevel::Low);
    assert!(cost_level(1000) == CostLevel::Moderate);
    assert!(cost_level(3999) == CostLevel::Moderate);
    assert!(cost_level(4000) == CostLevel::High);
    assert!(cost_level(7999) == CostLevel::High);
    assert!(cost_level(8000) == CostLevel::VeryHigh);
    assert_eq!(cost_label(CostLevel::Low), "Low cost");
    assert_eq!(cost_label(CostLevel::Moderate), "Moderate cost");
    assert_eq!(cost_label(CostLevel::High), "High cost");
    assert_eq!(cost_label(CostLevel::VeryHigh), "Very high cost!");
}

#[test]
fn branch_entries() {
    let main = "main".to_string();
    let dev = "dev".to_string();
    assert_eq!(branch_entry_text(&main, &main), "● main (current)");
    assert_eq!(branch_entry_text(&dev, &main), "  dev");
}

#[test]
fn branch_notices() {
    assert_eq!(branch_panel_notice(&".".to_string()), "No project selected. Press '0' to select a project folder.");
    assert_eq!(
        branch_panel_notice(&"/p".to_string()),
        "No branches found in the selected project or not a git repository."
    );
}

fn change(n: usize) -> GitFileChange {
    GitFileChange {
        file_path: "f".to_string(),
        status: "modified".to_string(),
        diff_lines: (0..n).map(|i| format!("+{}", i)).collect(),
        additions: n,
        deletions: 0,
    }
}

#[test]
fn preview_shows_five_lines_then_a_note() {
    assert_eq!(diff_preview(&change(2)), vec!["  +0", "  +1"]);
    assert_eq!(diff_preview(&change(5)).len(), 5);
    assert_eq!(diff_preview(&change(7)), vec!["  +0", "  +1", "  +2", "  +3", "  +4", "  ... (2 more lines)"]);
    assert!(diff_preview(&change(0)).is_empty());
}

#[test]
fn long_names_are_cut() {
    assert_eq!(short_file_name("src/main.rs"), "src/main.rs");
    let exactly_30 = "a".repeat(30);
    assert_eq!(short_file_name(&exactly_30), exactly_30);
    let long = "src/tui/some/deeply/nested/module/file.rs";
    assert_eq!(short_file_name(long), "src/tui/some/deeply/nested/...");
}

#[test]
fn status_tones() {
    assert!(status_tone(&"added".to_string()) == StatusTone::Added);
    assert!(status_tone(&"deleted".to_string()) == StatusTone::Deleted);
    assert!(status_tone(&"modified".to_string()) == StatusTone::Modified);
    assert!(status_tone(&"renamed".to_string()) == StatusTone::Renamed);
    assert!(status_tone(&"untracked".to_string()) == StatusTone::Untracked);
    assert!(status_tone(&"copied".to_string()) == StatusTone::Plain);
}

#[test]
fn user_info_screen_shows_buffer_for_active_field() {
    let u = UserInfo {
        name: "Ann".to_string(),
        employee_number: "42".to_string(),
        designation: "dev".to_string(),
        is_configured: true,
    };
    let mut app = App::new(u, None, None);
    app.current_user_field = UserInfoField::EmployeeNumber;
    app.user_info_buffer = "4".to_string();
    assert_eq!(shown_field_value(&app, UserInfoField::EmployeeNumber), "4");
    assert_eq!(shown_field_value(&app, UserInfoField::Name), "Ann");
    assert_eq!(shown_field_value(&app, UserInfoField::Designation), "dev");
}
