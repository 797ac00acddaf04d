use docgen_rs::git_diff::{GitDiffData, GitFileChange};
use docgen_rs::tui::app::{App, FormStep, MainView, UserInfo, UserInfoField};
use docgen_rs::tui::events::{
    apply_branch_diff, apply_diff_refresh, apply_folder_choice, apply_user_info_store, handle_branch_selection_input,
    handle_input, next_step, open_project,
    next_view, prev_step, prev_view, InputOutcome, KeyCode, KeyInput,
};

fn key(code: KeyCode) -> KeyInput {
    KeyInput { code, ctrl: false }
}

fn ctrl(c: char) -> KeyInput {
    KeyInput { code: KeyCode::Char(c), ctrl: true }
}

fn configured_app() -> App {
    let u = UserInfo {
        name: "Ann".to_string(),
        employee_number: "42".to_string(),
        designation: "dev".to_string(),
        is_configured: true,
    };
    App::new(u, None, None)
}

fn diff() -> GitDiffData {
    GitDiffData {
        files: vec![GitFileChange {
            file_path: "a.rs".to_string(),
            status: "added".to_string(),
            diff_lines: vec!["+fn a() {}".to_string()],
            additions: 1,
            deletions: 0,
        }],
        total_additions: 1,
        total_deletions: 0,
        total_files: 1,
    }
}

#[test]
fn steps_move_and_stop_at_the_ends() {
    assert!(next_step(&FormStep::ProblemStatement) == FormStep::HighLevelOverview);
    assert!(next_step(&FormStep::FutureConsiderations) == FormStep::FutureConsiderations);
    assert!(prev_step(&FormStep::ProblemStatement) == FormStep::ProblemStatement);
    assert!(prev_step(&FormStep::KeyChanges) == FormStep::CodeStructure);
    assert!(prev_step(&next_step(&FormStep::CodeStructure)) == FormStep::CodeStructure);
}

#[test]
fn tabs_go_round() {
    let mut v = MainView::BranchSelection;
    for _ in 0..4 {
        v = next_view(v);
    }
    assert!(v == MainView::BranchSelection);
    assert!(next_view(MainView::LLMStats) == MainView::BranchSelection);
    assert!(prev_view(MainView::BranchSelection) == MainView::LLMStats);
    assert!(prev_view(next_view(MainView::GitDiff)) == MainView::GitDiff);
    assert!(next_view(MainView::UserInfo) == MainView::BranchSelection);
    assert!(prev_view(MainView::UserInfo) == MainView::BranchSelection);
}

#[test]
fn any_key_dismisses_the_prompt() {
    let mut app = App::new(UserInfo::new(), None, None);
    assert!(app.show_user_info_prompt);
    assert!(handle_input(key(KeyCode::Esc), &mut app) == InputOutcome::Continue);
    assert!(!app.show_user_info_prompt);
    assert!(app.main_view == MainView::BranchSelection);
}

#[test]
fn control_e_on_the_prompt_opens_user_info() {
    let mut app = App::new(UserInfo::new(), None, None);
    assert!(handle_input(ctrl('E'), &mut app) == InputOutcome::Continue);
    assert!(app.main_view == MainView::UserInfo);
    assert!(app.show_user_info_prompt);
}

#[test]
fn esc_quits_but_leaves_user_info_first() {
    let mut app = configured_app();
    assert!(handle_input(ctrl('e'), &mut app) == InputOutcome::Continue);
    assert!(app.main_view == MainView::UserInfo);
    assert!(handle_input(key(KeyCode::Esc), &mut app) == InputOutcome::Continue);
    assert!(app.main_view == MainView::BranchSelection);
    assert!(handle_input(key(KeyCode::Esc), &mut app) == InputOutcome::Quit);
}

#[test]
fn keys_that_need_outside_work() {
    let mut app = configured_app();
    assert!(handle_input(key(KeyCode::Char('0')), &mut app) == InputOutcome::PickFolder);
    assert!(handle_input(ctrl('r'), &mut app) == InputOutcome::RefreshDiff);
}

#[test]
fn left_and_right_switch_tabs() {
    let mut app = configured_app();
    handle_input(key(KeyCode::Right), &mut app);
    assert!(app.main_view == MainView::Form);
    handle_input(key(KeyCode::Right), &mut app);
    assert!(app.main_view == MainView::GitDiff);
    handle_input(key(KeyCode::Left), &mut app);
    handle_input(key(KeyCode::Left), &mut app);
    handle_input(key(KeyCode::Left), &mut app);
    assert!(app.main_view == MainView::LLMStats);
}

#[test]
fn typing_on_the_form() {
    let mut app = configured_app();
    app.main_view = MainView::Form;
    handle_input(key(KeyCode::Char('h')), &mut app);
    handle_input(key(KeyCode::Char('i')), &mut app);
    handle_input(key(KeyCode::Char('r')), &mut app);
    assert_eq!(app.input_buffers[0], "hir");
    handle_input(key(KeyCode::Backspace), &mut app);
    assert_eq!(app.input_buffers[0], "hi");
    handle_input(key(KeyCode::Down), &mut app);
    assert!(app.current_step == FormStep::HighLevelOverview);
    handle_input(key(KeyCode::Char('x')), &mut app);
    assert_eq!(app.input_buffers[1], "x");
    assert_eq!(app.input_buffers[0], "hi");
    handle_input(key(KeyCode::Up), &mut app);
    handle_input(key(KeyCode::Up), &mut app);
    assert!(app.current_step == FormStep::ProblemStatement);
    handle_input(key(KeyCode::Backspace), &mut app);
    handle_input(key(KeyCode::Backspace), &mut app);
    handle_input(key(KeyCode::Backspace), &mut app);
    assert_eq!(app.input_buffers[0], "");
}

#[test]
fn control_s_submits_or_refuses() {
    let mut app = configured_app();
    assert!(handle_input(ctrl('s'), &mut app) == InputOutcome::Continue);
    assert_eq!(app.git_status, "Cannot submit: Please fix validation errors");
    apply_diff_refresh(&mut app, Ok(diff()));
    for i in 0..5 {
        app.input_buffers[i] = "done".to_string();
    }
    assert!(handle_input(ctrl('s'), &mut app) == InputOutcome::Continue);
    assert_eq!(app.git_status, "Successfully submitted to LLM!");
    assert_eq!(app.flow_step, 4);
}

#[test]
fn branch_selection_keys() {
    let mut app = configured_app();
    app.load_branches(vec!["main".to_string(), "dev".to_string()]);
    handle_input(key(KeyCode::Up), &mut app);
    assert_eq!(app.selected_branch_index, 0);
    handle_input(key(KeyCode::Down), &mut app);
    handle_input(key(KeyCode::Down), &mut app);
    assert_eq!(app.selected_branch_index, 1);
    assert!(handle_input(key(KeyCode::Enter), &mut app) == InputOutcome::LoadBranchDiff);
    assert_eq!(app.current_branch, "dev");
    assert_eq!(app.git_status, "Selected branch: dev");
    apply_branch_diff(&mut app, Err("no repository".to_string()));
    assert_eq!(app.git_status, "Error loading git diff: no repository");
    assert!(app.main_view == MainView::Form);
}

#[test]
fn down_on_an_empty_branch_list_stays() {
    let mut app = configured_app();
    handle_input(key(KeyCode::Down), &mut app);
    assert_eq!(app.selected_branch_index, 0);
}

#[test]
fn branch_diff_loaded_moves_to_form() {
    let mut app = configured_app();
    apply_branch_diff(&mut app, Ok(diff()));
    assert!(app.main_view == MainView::Form);
    assert_eq!(app.git_status, "1 files changed, 1 insertions(+), 0 deletions(-)");
    assert_eq!(app.file_impacts.len(), 1);
}

#[test]
fn refreshing_the_diff() {
    let mut app = configured_app();
    apply_diff_refresh(&mut app, Ok(diff()));
    assert_eq!(app.git_status, "Git diff refreshed: 1 files changed, 1 insertions(+), 0 deletions(-)");
    apply_diff_refresh(&mut app, Err("locked".to_string()));
    assert_eq!(app.git_status, "Error loading git diff: locked");
    assert_eq!(app.git_diff_data.total_files, 1);
}

#[test]
fn picking_a_folder() {
    let mut app = configured_app();
    app.main_view = MainView::LLMStats;
    apply_folder_choice(&mut app, "/work/proj".to_string(), Ok(vec!["main".to_string(), "x".to_string()]));
    assert_eq!(app.project_folder, "/work/proj");
    assert_eq!(app.git_status, "Loaded 2 branches from /work/proj");
    assert!(app.main_view == MainView::BranchSelection);
    app.selected_branch_index = 1;
    apply_folder_choice(&mut app, "/tmp/none".to_string(), Err("could not find repository".to_string()));
    assert_eq!(app.git_status, "Error loading branches: could not find repository");
    assert!(app.available_branches.is_empty());
    assert_eq!(app.project_folder, "/tmp/none");
}

#[test]
fn saving_user_info_with_keys() {
    let mut app = App::new(UserInfo::new(), None, None);
    handle_input(ctrl('e'), &mut app);
    app.show_user_info_prompt = false;
    for c in "Ann".chars() {
        handle_input(key(KeyCode::Char(c)), &mut app);
    }
    handle_input(key(KeyCode::Tab), &mut app);
    assert!(app.current_user_field == UserInfoField::EmployeeNumber);
    assert!(handle_input(ctrl('s'), &mut app) == InputOutcome::Continue);
    assert_eq!(app.git_status, "Save error: All fields must be filled");
    for c in "42".chars() {
        handle_input(key(KeyCode::Char(c)), &mut app);
    }
    handle_input(key(KeyCode::Down), &mut app);
    for c in "devx".chars() {
        handle_input(key(KeyCode::Char(c)), &mut app);
    }
    handle_input(key(KeyCode::Backspace), &mut app);
    assert!(handle_input(ctrl('s'), &mut app) == InputOutcome::StoreUserInfo);
    assert!(app.user_info.is_configured);
    assert_eq!(app.user_info.designation, "dev");
    apply_user_info_store(&mut app, Err("disk full".to_string()));
    assert_eq!(app.git_status, "Save error: disk full");
    apply_user_info_store(&mut app, Ok(()));
    assert_eq!(app.git_status, "User information saved successfully!");
    assert!(app.main_view == MainView::BranchSelection);
    assert!(!app.show_user_info_prompt);
}

#[test]
fn back_tab_and_up_go_to_previous_field() {
    let mut app = configured_app();
    handle_input(ctrl('e'), &mut app);
    handle_input(key(KeyCode::BackTab), &mut app);
    assert!(app.current_user_field == UserInfoField::Designation);
    handle_input(key(KeyCode::Up), &mut app);
    assert!(app.current_user_field == UserInfoField::EmployeeNumber);
}

#[test]
fn opening_a_project_at_start() {
    let mut app = configured_app();
    open_project(&mut app, "/p".to_string(), Ok(vec!["trunk".to_string()]));
    assert_eq!(app.project_folder, "/p");
    assert_eq!(app.current_branch, "trunk");
    open_project(&mut app, "/q".to_string(), Err("not a repository".to_string()));
    assert_eq!(app.project_folder, "/q");
    assert_eq!(app.git_status, "Error loading branches from /q: not a repository");
    assert_eq!(app.available_branches, vec!["trunk".to_string()]);
}

#[test]
fn branch_selection_handler_stays_in_range() {
    let mut app = configured_app();
    app.load_branches(vec!["main".to_string(), "dev".to_string(), "fix".to_string()]);
    let branch_before = app.current_branch.clone();
    assert!(handle_branch_selection_input(key(KeyCode::Up), &mut app) == InputOutcome::Continue);
    assert_eq!(app.selected_branch_index, 0);
    for _ in 0..5 {
        assert!(handle_branch_selection_input(key(KeyCode::Down), &mut app) == InputOutcome::Continue);
    }
    assert_eq!(app.selected_branch_index, 2);
    handle_branch_selection_input(key(KeyCode::Up), &mut app);
    assert_eq!(app.selected_branch_index, 1);
    assert_eq!(app.current_branch, branch_before);
    let mut empty = configured_app();
    handle_branch_selection_input(key(KeyCode::Down), &mut empty);
    handle_branch_selection_input(key(KeyCode::Up), &mut empty);
    assert_eq!(empty.selected_branch_index, 0);
}
