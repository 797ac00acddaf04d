use docgen_rs::git_diff::{GitDiffData, GitFileChange};
use docgen_rs::tui::app::{
    estimate_function_changes, estimate_tokens, step_index, App, FormStep, MainView, TokenStats, UserInfo,
    UserInfoField,
};

fn user(name: &str, number: &str, designation: &str) -> UserInfo {
    UserInfo {
        name: name.to_string(),
        employee_number: number.to_string(),
        designation: designation.to_string(),
        is_configured: false,
    }
}

fn one_file_diff() -> GitDiffData {
    GitDiffData {
        files: vec![GitFileChange {
            file_path: "src/auth.rs".to_string(),
            status: "modified".to_string(),
            diff_lines: vec!["+fn new_login() {}".to_string(), "-fn old_login() {}".to_string(), " ok".to_string()],
            additions: 1,
            deletions: 1,
        }],
        total_additions: 1,
        total_deletions: 1,
        total_files: 1,
    }
}

fn strings(v: &[&str]) -> Vec<String> {
    v.iter().map(|s| s.to_string()).collect()
}

#[test]
fn tokens_of_empty_text_are_zero() {
    assert_eq!(estimate_tokens(""), 0);
}

#[test]
fn tokens_quarter_of_bytes() {
    assert_eq!(estimate_tokens("hello world"), 2);
    assert_eq!(estimate_tokens("a b c d e f g h i"), 4);
    assert_eq!(estimate_tokens("abc"), 0);
    assert_eq!(estimate_tokens("ééé"), 1);
    assert_eq!(estimate_tokens("     "), 1);
}

#[test]
fn function_changes_counted() {
    let lines = strings(&[
        "+fn main() {",
        "-def foo(x):",
        " fn unchanged() {}",
        "+let x = 1;",
        "+    async move {}",
        "+a => b",
        "-public void run()",
        "+x",
        "",
        "+func go()",
        "+  int count = 0;",
        "-   private String s;",
        "+function f() {}",
        "+fnord",
    ]);
    assert_eq!(estimate_function_changes(&lines), 9);
    assert_eq!(estimate_function_changes(&[]), 0);
}

#[test]
fn user_info_completeness() {
    let u = UserInfo::new();
    assert!(!u.is_complete());
    assert!(!u.is_configured);
    assert!(!user("  ", "42", "dev").is_complete());
    assert!(!user("Ann", "\t", "dev").is_complete());
    assert!(user("Ann", "42", "dev").is_complete());
    let mut partial = user("Ann", "", "dev");
    partial.mark_configured();
    assert!(!partial.is_configured);
    let mut full = user("Ann", "42", "dev");
    full.mark_configured();
    assert!(full.is_configured);
}

#[test]
fn token_stats_start_at_zero() {
    let t = TokenStats::new();
    assert_eq!((t.diff_tokens, t.form_tokens, t.total_tokens), (0, 0, 0));
}

#[test]
fn steps_index_buffers() {
    assert_eq!(step_index(FormStep::ProblemStatement), 0);
    assert_eq!(step_index(FormStep::FutureConsiderations), 4);
}

#[test]
fn startup_outside_a_repository() {
    let app = App::new(UserInfo::new(), None, None);
    assert_eq!(app.git_status, "Not a git repository or no branches found");
    assert!(app.show_user_info_prompt);
    assert!(app.main_view == MainView::BranchSelection);
    assert_eq!(app.current_branch, "main");
    assert_eq!(app.project_folder, ".");
    assert!(app.available_branches.is_empty());
    // five empty answers, each followed by a space: 5 bytes, 1 token
    assert_eq!(app.token_stats.form_tokens, 1);
    assert_eq!(app.token_stats.diff_tokens, 0);
    assert_eq!(app.token_stats.total_tokens, 1);
    assert!(!app.can_submit);
}

#[test]
fn startup_with_branches_and_no_diff() {
    let mut u = user("Ann", "42", "dev");
    u.is_configured = true;
    let app = App::new(u, Some(strings(&["dev", "main"])), None);
    assert_eq!(app.git_status, "Loaded 2 branches from current directory");
    assert_eq!(app.current_branch, "dev");
    assert_eq!(app.selected_branch_index, 0);
    assert!(!app.show_user_info_prompt);
}

#[test]
fn startup_with_branches_and_diff() {
    let app = App::new(UserInfo::new(), Some(strings(&["main"])), Some(one_file_diff()));
    let s = "1 files changed, 1 insertions(+), 1 deletions(-)";
    assert_eq!(app.git_status, format!("{} | {}", s, s));
    assert_eq!(app.file_impacts.len(), 1);
    assert_eq!(app.file_impacts[0].filename, "src/auth.rs");
    assert_eq!(app.file_impacts[0].impact_score, 2);
    assert_eq!(app.file_impacts[0].functions_modified, 2);
    assert_eq!(
        app.token_stats.total_tokens,
        app.token_stats.form_tokens + app.token_stats.diff_tokens
    );
    // "File: src/auth.rs\n" + three lines with newlines = 18 + 19 + 19 + 4 = 60 bytes
    assert_eq!(app.token_stats.diff_tokens, 15);
}

#[test]
fn heatmap_score_is_capped() {
    let mut app = App::new(UserInfo::new(), None, None);
    let mut d = one_file_diff();
    d.files[0].additions = 90;
    d.files[0].deletions = 30;
    app.load_git_diff(d);
    assert_eq!(app.file_impacts[0].impact_score, 100);
    assert_eq!(app.file_impacts[0].lines_added, 90);
    assert_eq!(app.git_status, "1 files changed, 1 insertions(+), 1 deletions(-)");
    let mut huge = one_file_diff();
    huge.files[0].additions = usize::MAX;
    huge.files[0].deletions = 5;
    app.load_git_diff(huge);
    assert_eq!(app.file_impacts[0].impact_score, 100);
}

#[test]
fn branch_selection_follows_index() {
    let mut app = App::new(UserInfo::new(), None, None);
    app.load_branches(strings(&["a", "b", "c"]));
    assert_eq!(app.current_branch, "a");
    app.selected_branch_index = 2;
    app.select_current_branch();
    assert_eq!(app.current_branch, "c");
    app.selected_branch_index = 7;
    app.select_current_branch();
    assert_eq!(app.current_branch, "c");
    app.load_branches(vec![]);
    assert_eq!(app.current_branch, "c");
    assert_eq!(app.selected_branch_index, 0);
}

#[test]
fn form_errors_only_after_an_attempt() {
    let mut app = App::new(UserInfo::new(), None, None);
    assert!(app.get_form_errors().is_empty());
    app.input_buffers[1] = "overview".to_string();
    app.input_buffers[3] = "   ".to_string();
    assert_eq!(app.attempt_submit(), Ok(false));
    assert!(app.submit_attempted);
    assert_eq!(
        app.get_form_errors(),
        strings(&[
            "Problem Statement is required",
            "Code Structure is required",
            "Key Changes is required",
            "Future Considerations is required",
            "No git changes found. Make some changes to your code first.",
        ])
    );
    assert!(!app.can_submit);
    assert_eq!(app.flow_step, 0);
}

#[test]
fn complete_form_is_submitted() {
    let mut app = App::new(UserInfo::new(), None, None);
    app.load_git_diff(one_file_diff());
    for i in 0..5 {
        app.input_buffers[i] = format!("answer {}", i);
    }
    assert_eq!(app.attempt_submit(), Ok(true));
    assert!(app.get_form_errors().is_empty());
    assert_eq!(app.git_status, "Submitted to LLM successfully!");
    assert_eq!(app.flow_step, 4);
}

#[test]
fn prompt_holds_answers_and_diff() {
    let mut app = App::new(UserInfo::new(), None, None);
    app.load_git_diff(one_file_diff());
    app.current_branch = "feature".to_string();
    app.input_buffers[0] = "why".to_string();
    let p = app.llm_prompt();
    let expected = "# Code Documentation Request\n\n\
## Problem Statement\nwhy\n\n\
## High-Level Overview\n\n\n\
## Code Structure\n\n\n\
## Key Changes\n\n\n\
## Future Considerations\n\n\n\
## Git Changes\n\
Branch: feature\n\
Summary: 1 files changed, 1 insertions(+), 1 deletions(-)\n\n\
### src/auth.rs (modified)\n\
```diff\n+fn new_login() {}\n-fn old_login() {}\n ok\n```\n\n";
    assert_eq!(p, expected);
}

#[test]
fn user_info_fields_round_trip() {
    let mut app = App::new(user("Ann", "42", "dev"), None, None);
    app.enter_user_info_mode();
    assert!(app.main_view == MainView::UserInfo);
    assert_eq!(app.user_info_buffer, "Ann");
    app.user_info_buffer = "Bob".to_string();
    app.next_user_info_field();
    assert!(app.current_user_field == UserInfoField::EmployeeNumber);
    assert_eq!(app.user_info_buffer, "42");
    assert_eq!(app.user_info.name, "Bob");
    app.previous_user_info_field();
    assert!(app.current_user_field == UserInfoField::Name);
    assert_eq!(app.user_info_buffer, "Bob");
    app.previous_user_info_field();
    assert!(app.current_user_field == UserInfoField::Designation);
    assert_eq!(app.user_info_buffer, "dev");
    app.next_user_info_field();
    app.next_user_info_field();
    app.next_user_info_field();
    assert!(app.current_user_field == UserInfoField::Designation);
}

#[test]
fn entering_user_info_keeps_a_nonempty_buffer() {
    let mut app = App::new(user("Ann", "42", "dev"), None, None);
    app.user_info_buffer = "draft".to_string();
    app.enter_user_info_mode();
    assert_eq!(app.user_info_buffer, "draft");
}

#[test]
fn saving_incomplete_user_info_fails() {
    let mut app = App::new(user("", "42", "dev"), None, None);
    app.current_user_field = UserInfoField::Designation;
    app.user_info_buffer = "lead".to_string();
    assert_eq!(app.save_user_info(), Err("All fields must be filled".to_string()));
    assert_eq!(app.user_info.designation, "lead");
    assert!(!app.user_info.is_configured);
    assert_eq!(app.get_user_info_errors(), strings(&["Name is required"]));
}

#[test]
fn saving_complete_user_info_marks_it() {
    let mut app = App::new(user("Ann", "", "dev"), None, None);
    assert_eq!(app.get_user_info_errors(), strings(&["Employee Number is required"]));
    app.current_user_field = UserInfoField::EmployeeNumber;
    app.user_info_buffer = "7".to_string();
    assert_eq!(app.save_user_info(), Ok(()));
    assert!(app.user_info.is_configured);
    assert!(app.get_user_info_errors().is_empty());
    app.finish_user_info_save();
    assert!(!app.show_user_info_prompt);
    assert_eq!(app.git_status, "User information saved successfully!");
}

#[test]
fn all_user_info_errors() {
    let app = App::new(UserInfo::new(), None, None);
    assert_eq!(
        app.get_user_info_errors(),
        strings(&["Name is required", "Employee Number is required", "Designation is required"])
    );
}

#[test]
fn reloading_the_same_diff_changes_nothing() {
    let mut app = App::new(UserInfo::new(), None, None);
    app.load_git_diff(one_file_diff());
    let first = (app.git_status.clone(), app.file_impacts.len(), app.token_stats.total_tokens, app.can_submit);
    app.load_git_diff(one_file_diff());
    let second = (app.git_status.clone(), app.file_impacts.len(), app.token_stats.total_tokens, app.can_submit);
    assert_eq!(first, second);
}

#[test]
fn function_changes_add_up_and_ignore_order() {
    let a: Vec<String> = vec!["+fn a() {}".to_string(), " context".to_string(), "-def b():".to_string()];
    let b: Vec<String> = vec!["+x => y".to_string(), "+plain".to_string()];
    let joined: Vec<String> = [a.clone(), b.clone()].concat();
    assert_eq!(estimate_function_changes(&joined), estimate_function_changes(&a) + estimate_function_changes(&b));
    assert_eq!(estimate_function_changes(&joined), 3);
    let mut shuffled = joined.clone();
    shuffled.reverse();
    shuffled.swap(0, 3);
    assert_eq!(estimate_function_changes(&shuffled), 3);
}
