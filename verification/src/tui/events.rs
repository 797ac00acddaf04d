use crate::git_diff::{summary_text, views_of, GitDiffData, GitDiffDataView};
use crate::text::{decimal, pop_char, push_char, push_decimal, push_str};
use crate::tui::app::{
    after_submit_attempt, in_user_info_mode, incomplete_message, moved_to_field, next_field, previous_field,
    step_index, step_position, submit_checked, user_info_complete, user_info_prepared, user_info_stored,
    validated, with_branches, with_diff, with_field_saved, with_selected_branch, App, AppView, FormStep,
    MainView,
};
use vstd::prelude::*;

verus! {

/// The next question of the form; the last one stays.
pub fn next_step(step: &FormStep) -> (r: FormStep)
    ensures
        r == following_step(*step),
{
    match step {
        FormStep::ProblemStatement => FormStep::HighLevelOverview,
        FormStep::HighLevelOverview => FormStep::CodeStructure,
        FormStep::CodeStructure => FormStep::KeyChanges,
        FormStep::KeyChanges => FormStep::FutureConsiderations,
        FormStep::FutureConsiderations => FormStep::FutureConsiderations,
    }
}

/// The previous question of the form; the first one stays.
pub fn prev_step(step: &FormStep) -> (r: FormStep)
    ensures
        r == preceding_step(*step),
{
    match step {
        FormStep::ProblemStatement => FormStep::ProblemStatement,
        FormStep::HighLevelOverview => FormStep::ProblemStatement,
        FormStep::CodeStructure => FormStep::HighLevelOverview,
        FormStep::KeyChanges => FormStep::CodeStructure,
        FormStep::FutureConsiderations => FormStep::KeyChanges,
    }
}

/// The question after `step`, the last one staying put.
pub open spec fn following_step(step: FormStep) -> FormStep {
    match step {
        FormStep::ProblemStatement => FormStep::HighLevelOverview,
        FormStep::HighLevelOverview => FormStep::CodeStructure,
        FormStep::CodeStructure => FormStep::KeyChanges,
        FormStep::KeyChanges => FormStep::FutureConsiderations,
        FormStep::FutureConsiderations => FormStep::FutureConsiderations,
    }
}

/// The question before `step`, the first one staying put.
pub open spec fn preceding_step(step: FormStep) -> FormStep {
    match step {
        FormStep::ProblemStatement => FormStep::ProblemStatement,
        FormStep::HighLevelOverview => FormStep::ProblemStatement,
        FormStep::CodeStructure => FormStep::HighLevelOverview,
        FormStep::KeyChanges => FormStep::CodeStructure,
        FormStep::FutureConsiderations => FormStep::KeyChanges,
    }
}

/// The tab to the right of `view`, going round the four tabs; the user
/// information screen leads back to branch selection.
pub open spec fn view_after(view: MainView) -> MainView {
    match view {
        MainView::BranchSelection => MainView::Form,
        MainView::Form => MainView::GitDiff,
        MainView::GitDiff => MainView::LLMStats,
        MainView::LLMStats => MainView::BranchSelection,
        MainView::UserInfo => MainView::BranchSelection,
    }
}

/// The tab to the left of `view`, going round the four tabs; the user
/// information screen leads back to branch selection.
pub open spec fn view_before(view: MainView) -> MainView {
    match view {
        MainView::BranchSelection => MainView::LLMStats,
        MainView::Form => MainView::BranchSelection,
        MainView::GitDiff => MainView::Form,
        MainView::LLMStats => MainView::GitDiff,
        MainView::UserInfo => MainView::BranchSelection,
    }
}

/// The tab to the right of `view`.
pub fn next_view(view: MainView) -> (r: MainView)
    ensures
        r == view_after(view),
{
    match view {
        MainView::BranchSelection => MainView::Form,
        MainView::Form => MainView::GitDiff,
        MainView::GitDiff => MainView::LLMStats,
        MainView::LLMStats => MainView::BranchSelection,
        MainView::UserInfo => MainView::BranchSelection,
    }
}

/// The tab to the left of `view`.
pub fn prev_view(view: MainView) -> (r: MainView)
    ensures
        r == view_before(view),
{
    match view {
        MainView::BranchSelection => MainView::LLMStats,
        MainView::Form => MainView::BranchSelection,
        MainView::GitDiff => MainView::Form,
        MainView::LLMStats => MainView::GitDiff,
        MainView::UserInfo => MainView::BranchSelection,
    }
}

/// A key, as far as the assistant tells keys apart.
#[derive(Clone, Copy, Debug, PartialEq, Eq, Structural)]
pub enum KeyCode {
    Char(char),
    Backspace,
    Enter,
    Left,
    Right,
    Up,
    Down,
    Tab,
    BackTab,
    Esc,
    Other,
}

/// A key press, and whether Control was held.
#[derive(Clone, Copy, Debug, PartialEq, Eq, Structural)]
pub struct KeyInput {
    pub code: KeyCode,
    pub ctrl: bool,
}

/// What the caller must do after a key press.
#[derive(Clone, Copy, Debug, PartialEq, Eq, Structural)]
pub enum InputOutcome {
    /// Nothing more; keep running.
    Continue,
    /// Leave the program.
    Quit,
    /// Let the user pick a project folder, list its branches, then call
    /// [`apply_folder_choice`].
    PickFolder,
    /// Read the working diff of the project again, then call [`apply_diff_refresh`].
    RefreshDiff,
    /// Read the working diff for the branch just selected, then call [`apply_branch_diff`].
    LoadBranchDiff,
    /// Store the user information, then call [`apply_user_info_store`].
    StoreUserInfo,
}

/// Control and `e` (either case).
pub open spec fn is_user_info_key(k: KeyInput) -> bool {
    k.ctrl && (k.code == KeyCode::Char('e') || k.code == KeyCode::Char('E'))
}

/// `v` with the answer being edited set to `answer`, then validated.
pub open spec fn with_answer(v: AppView, answer: Seq<char>) -> AppView {
    validated(AppView { input_buffers: v.input_buffers.update(step_position(v.current_step) as int, answer), ..v })
}

/// The answer being edited.
pub open spec fn current_answer(v: AppView) -> Seq<char> {
    v.input_buffers[step_position(v.current_step) as int]
}

/// A sequence without its last element, or unchanged when empty (what `pop` leaves).
pub open spec fn popped(s: Seq<char>) -> Seq<char> {
    if s.len() > 0 { s.drop_last() } else { s }
}

/// A key on the form: characters and backspace edit the answer and
/// revalidate; up and down move between questions.
pub open spec fn form_key(v: AppView, k: KeyInput) -> AppView {
    match k.code {
        KeyCode::Char(c) => with_answer(v, current_answer(v).push(c)),
        KeyCode::Backspace => with_answer(v, popped(current_answer(v))),
        KeyCode::Up => AppView { current_step: preceding_step(v.current_step), ..v },
        KeyCode::Down => AppView { current_step: following_step(v.current_step), ..v },
        _ => v,
    }
}

/// A key on the user information screen: characters and backspace edit the
/// buffer; Tab and down move to the next field, Shift-Tab and up to the previous.
pub open spec fn user_info_key(v: AppView, k: KeyInput) -> AppView {
    match k.code {
        KeyCode::Char(c) => AppView { user_info_buffer: v.user_info_buffer.push(c), ..v },
        KeyCode::Backspace => AppView { user_info_buffer: popped(v.user_info_buffer), ..v },
        KeyCode::Tab => moved_to_field(v, next_field(v.current_user_field)),
        KeyCode::Down => moved_to_field(v, next_field(v.current_user_field)),
        KeyCode::BackTab => moved_to_field(v, previous_field(v.current_user_field)),
        KeyCode::Up => moved_to_field(v, previous_field(v.current_user_field)),
        _ => v,
    }
}

/// The last index of a list of `n` entries, or 0 for none.
pub open spec fn last_index(n: nat) -> nat {
    if n > 0 { (n - 1) as nat } else { 0 }
}

/// A key on branch selection: up and down move the selection within the
/// list; Enter makes the selected branch current and asks for its diff.
pub open spec fn branch_key(v: AppView, k: KeyInput) -> (AppView, InputOutcome) {
    match k.code {
        KeyCode::Up => (
            AppView {
                selected_branch_index: if v.selected_branch_index > 0 { (v.selected_branch_index - 1) as nat } else { 0 },
                ..v
            },
            InputOutcome::Continue,
        ),
        KeyCode::Down => (
            AppView {
                selected_branch_index: if v.selected_branch_index < last_index(v.available_branches.len()) {
                    v.selected_branch_index + 1
                } else {
                    v.selected_branch_index
                },
                ..v
            },
            InputOutcome::Continue,
        ),
        KeyCode::Enter => {
            let w = with_selected_branch(v);
            (AppView { git_status: "Selected branch: "@ + w.current_branch, ..w }, InputOutcome::LoadBranchDiff)
        },
        _ => (v, InputOutcome::Continue),
    }
}

/// Control-S: on the user information screen, save the buffer and, when the
/// information is complete, ask for it to be stored (an error status
/// otherwise); elsewhere, try to submit the form and say how it went.
pub open spec fn save_key(v: AppView) -> (AppView, InputOutcome) {
    if v.main_view == MainView::UserInfo {
        let w = user_info_prepared(v);
        if user_info_complete(with_field_saved(v).user_info) {
            (w, InputOutcome::StoreUserInfo)
        } else {
            (AppView { git_status: "Save error: "@ + incomplete_message(), ..w }, InputOutcome::Continue)
        }
    } else {
        let w = after_submit_attempt(v);
        let status = if submit_checked(v).can_submit {
            "Successfully submitted to LLM!"@
        } else {
            "Cannot submit: Please fix validation errors"@
        };
        (AppView { git_status: status, ..w }, InputOutcome::Continue)
    }
}

/// The effect of a key press: the next state, and what the caller must do.
///
/// While the set-up prompt is shown, Control-E opens the user information
/// screen and any other key dismisses the prompt. Otherwise Esc leaves the
/// user information screen or quits; Control-E opens that screen; `0` asks
/// for a project folder; Control-R asks for the diff again; Control-S saves
/// or submits; left and right switch tabs; other keys go to the panel shown.
pub open spec fn input_step(v: AppView, k: KeyInput) -> (AppView, InputOutcome) {
    if v.show_user_info_prompt {
        if is_user_info_key(k) {
            (in_user_info_mode(v), InputOutcome::Continue)
        } else {
            (AppView { show_user_info_prompt: false, ..v }, InputOutcome::Continue)
        }
    } else if k.code == KeyCode::Esc {
        if v.main_view == MainView::UserInfo {
            (AppView { main_view: MainView::BranchSelection, ..v }, InputOutcome::Continue)
        } else {
            (v, InputOutcome::Quit)
        }
    } else if is_user_info_key(k) {
        (in_user_info_mode(v), InputOutcome::Continue)
    } else if k.code == KeyCode::Char('0') {
        (v, InputOutcome::PickFolder)
    } else if k.ctrl && k.code == KeyCode::Char('r') {
        (v, InputOutcome::RefreshDiff)
    } else if k.ctrl && k.code == KeyCode::Char('s') {
        save_key(v)
    } else if k.code == KeyCode::Left {
        (AppView { main_view: view_before(v.main_view), ..v }, InputOutcome::Continue)
    } else if k.code == KeyCode::Right {
        (AppView { main_view: view_after(v.main_view), ..v }, InputOutcome::Continue)
    } else {
        match v.main_view {
            MainView::BranchSelection => branch_key(v, k),
            MainView::Form => (form_key(v, k), InputOutcome::Continue),
            MainView::UserInfo => (user_info_key(v, k), InputOutcome::Continue),
            _ => (v, InputOutcome::Continue),
        }
    }
}

/// A key on branch selection. Up moves the selection one entry back and
/// stops at the first; down moves it one entry on and stops at the last; an
/// index that was in range (or zero on an empty list) stays so, and nothing
/// else changes. Enter makes the selected branch current and asks for its diff.
pub fn handle_branch_selection_input(key: KeyInput, app: &mut App) -> (outcome: InputOutcome)
    ensures
        (final(app)@, outcome) == branch_key(old(app)@, key),
        key.code == KeyCode::Up || key.code == KeyCode::Down ==> {
            let i = old(app)@.selected_branch_index;
            let n = old(app)@.available_branches.len();
            let j = final(app)@.selected_branch_index;
            &&& outcome == InputOutcome::Continue
            &&& final(app)@ == (AppView { selected_branch_index: j, ..old(app)@ })
            &&& key.code == KeyCode::Up ==> j == if i > 0 { (i - 1) as nat } else { 0 }
            &&& key.code == KeyCode::Down && (i < n || i == 0) ==> j == if i + 1 <= last_index(n) { i + 1 } else { last_index(n) }
            &&& (i < n || i == 0) ==> (j < n || j == 0)
        },
{
    match key.code {
        KeyCode::Up => {
            if app.selected_branch_index > 0 {
                app.selected_branch_index = app.selected_branch_index - 1;
            }
            InputOutcome::Continue
        },
        KeyCode::Down => {
            let n = app.available_branches.len();
            let last = if n > 0 { n - 1 } else { 0 };
            if app.selected_branch_index < last {
                app.selected_branch_index = app.selected_branch_index + 1;
            }
            InputOutcome::Continue
        },
        KeyCode::Enter => {
            app.select_current_branch();
            let mut status = String::from_str("Selected branch: ");
            push_str(&mut status, app.current_branch.as_str());
            app.git_status = status;
            InputOutcome::LoadBranchDiff
        },
        _ => InputOutcome::Continue,
    }
}

/// A key on the form: see [`form_key`].
pub fn handle_form_input(key: KeyInput, app: &mut App)
    ensures
        final(app)@ == form_key(old(app)@, key),
{
    let idx = step_index(app.current_step);
    match key.code {
        KeyCode::Char(c) => {
            let mut answer = app.input_buffers[idx].clone();
            push_char(&mut answer, c);
            app.input_buffers[idx] = answer;
            proof {
                assert(app@.input_buffers =~= old(app)@.input_buffers.update(idx as int, old(app)@.input_buffers[idx as int].push(c)));
            }
            app.validate_form();
        },
        KeyCode::Backspace => {
            let mut answer = app.input_buffers[idx].clone();
            let _ = pop_char(&mut answer);
            app.input_buffers[idx] = answer;
            proof {
                assert(app@.input_buffers =~= old(app)@.input_buffers.update(idx as int, popped(old(app)@.input_buffers[idx as int])));
            }
            app.validate_form();
        },
        KeyCode::Up => app.current_step = prev_step(&app.current_step),
        KeyCode::Down => app.current_step = next_step(&app.current_step),
        _ => {},
    }
}

/// A key on the user information screen: see [`user_info_key`].
pub fn handle_user_info_input(key: KeyInput, app: &mut App)
    ensures
        final(app)@ == user_info_key(old(app)@, key),
{
    match key.code {
        KeyCode::Char(c) => {
            push_char(&mut app.user_info_buffer, c);
        },
        KeyCode::Backspace => {
            let _ = pop_char(&mut app.user_info_buffer);
        },
        KeyCode::Tab => app.next_user_info_field(),
        KeyCode::BackTab => app.previous_user_info_field(),
        KeyCode::Up => app.previous_user_info_field(),
        KeyCode::Down => app.next_user_info_field(),
        _ => {},
    }
}

fn handle_save_key(app: &mut App) -> (outcome: InputOutcome)
    ensures
        (final(app)@, outcome) == save_key(old(app)@),
{
    if app.main_view == MainView::UserInfo {
        match app.save_user_info() {
            Ok(()) => InputOutcome::StoreUserInfo,
            Err(e) => {
                let mut status = String::from_str("Save error: ");
                push_str(&mut status, e.as_str());
                app.git_status = status;
                InputOutcome::Continue
            },
        }
    } else {
        match app.attempt_submit() {
            Ok(true) => {
                app.git_status = String::from_str("Successfully submitted to LLM!");
            },
            Ok(false) => {
                app.git_status = String::from_str("Cannot submit: Please fix validation errors");
            },
            Err(e) => {
                let mut status = String::from_str("Submit error: ");
                push_str(&mut status, e.as_str());
                app.git_status = status;
            },
        }
        InputOutcome::Continue
    }
}

/// Handles one key press: updates `app` and tells the caller what to do next.
pub fn handle_input(key: KeyInput, app: &mut App) -> (outcome: InputOutcome)
    ensures
        (final(app)@, outcome) == input_step(old(app)@, key),
{
    if app.show_user_info_prompt {
        if key.ctrl && (key.code == KeyCode::Char('e') || key.code == KeyCode::Char('E')) {
            app.enter_user_info_mode();
        } else {
            app.show_user_info_prompt = false;
        }
        return InputOutcome::Continue;
    }
    if key.code == KeyCode::Esc {
        if app.main_view == MainView::UserInfo {
            app.main_view = MainView::BranchSelection;
            return InputOutcome::Continue;
        }
        return InputOutcome::Quit;
    }
    if key.ctrl && (key.code == KeyCode::Char('e') || key.code == KeyCode::Char('E')) {
        app.enter_user_info_mode();
        InputOutcome::Continue
    } else if key.code == KeyCode::Char('0') {
        InputOutcome::PickFolder
    } else if key.ctrl && key.code == KeyCode::Char('r') {
        InputOutcome::RefreshDiff
    } else if key.ctrl && key.code == KeyCode::Char('s') {
        handle_save_key(app)
    } else if key.code == KeyCode::Left {
        app.main_view = prev_view(app.main_view);
        InputOutcome::Continue
    } else if key.code == KeyCode::Right {
        app.main_view = next_view(app.main_view);
        InputOutcome::Continue
    } else {
        match app.main_view {
            MainView::BranchSelection => handle_branch_selection_input(key, app),
            MainView::Form => {
                handle_form_input(key, app);
                InputOutcome::Continue
            },
            MainView::UserInfo => {
                handle_user_info_input(key, app);
                InputOutcome::Continue
            },
            _ => InputOutcome::Continue,
        }
    }
}

/// `v` after a project folder was picked and its branches listed (`Err`
/// holds the message of a listing that failed): the folder is the project,
/// the branches are loaded (cleared on failure), the status tells which,
/// and branch selection is shown.
pub open spec fn folder_chosen(v: AppView, folder: Seq<char>, branches: Result<Seq<Seq<char>>, Seq<char>>) -> AppView {
    let w = AppView { project_folder: folder, ..v };
    let loaded = match branches {
        Ok(b) => AppView {
            git_status: "Loaded "@ + decimal(b.len()) + " branches from "@ + folder,
            ..with_branches(w, b)
        },
        Err(e) => AppView {
            git_status: "Error loading branches: "@ + e,
            available_branches: Seq::empty(),
            ..w
        },
    };
    AppView { main_view: MainView::BranchSelection, ..loaded }
}

/// `v` after the diff was read again (`Err` holds the message of a read that failed).
pub open spec fn diff_refreshed(v: AppView, diff: Result<GitDiffDataView, Seq<char>>) -> AppView {
    match diff {
        Ok(d) => AppView { git_status: "Git diff refreshed: "@ + summary_text(d), ..with_diff(v, d) },
        Err(e) => AppView { git_status: "Error loading git diff: "@ + e, ..v },
    }
}

/// `v` after the diff for a newly selected branch was read: the diff is
/// loaded (or the failure shown), and the form comes next.
pub open spec fn branch_diff_loaded(v: AppView, diff: Result<GitDiffDataView, Seq<char>>) -> AppView {
    let w = match diff {
        Ok(d) => with_diff(v, d),
        Err(e) => AppView { git_status: "Error loading git diff: "@ + e, ..v },
    };
    AppView { main_view: MainView::Form, ..w }
}

/// `v` after the user information was written out (`Err` holds the message
/// of a write that failed).
pub open spec fn user_info_written(v: AppView, result: Result<(), Seq<char>>) -> AppView {
    match result {
        Ok(()) => AppView { main_view: MainView::BranchSelection, ..user_info_stored(v) },
        Err(e) => AppView { git_status: "Save error: "@ + e, ..v },
    }
}

/// The views of a list of branches or an error message.
pub open spec fn listing_view(r: Result<Vec<String>, String>) -> Result<Seq<Seq<char>>, Seq<char>> {
    match r {
        Ok(b) => Ok(views_of(b@)),
        Err(e) => Err(e@),
    }
}

/// The view of a diff or an error message.
pub open spec fn diff_view(r: Result<GitDiffData, String>) -> Result<GitDiffDataView, Seq<char>> {
    match r {
        Ok(d) => Ok(d@),
        Err(e) => Err(e@),
    }
}

/// The view of a completed write or an error message.
pub open spec fn write_view(r: Result<(), String>) -> Result<(), Seq<char>> {
    match r {
        Ok(()) => Ok(()),
        Err(e) => Err(e@),
    }
}

/// Takes the folder the user picked and the result of listing its branches.
pub fn apply_folder_choice(app: &mut App, folder: String, branches: Result<Vec<String>, String>)
    ensures
        final(app)@ == folder_chosen(old(app)@, folder@, listing_view(branches)),
{
    let mut status = String::from_str("Opened folder: ");
    push_str(&mut status, folder.as_str());
    app.git_status = status;
    match branches {
        Ok(list) => {
            app.project_folder = folder;
            app.load_branches(list);
            let mut status = String::from_str("Loaded ");
            push_decimal(&mut status, app.available_branches.len());
            push_str(&mut status, " branches from ");
            push_str(&mut status, app.project_folder.as_str());
            app.git_status = status;
        },
        Err(e) => {
            app.project_folder = folder;
            let mut status = String::from_str("Error loading branches: ");
            push_str(&mut status, e.as_str());
            app.git_status = status;
            app.available_branches.clear();
            proof {
                assert(app@.available_branches =~= Seq::<Seq<char>>::empty());
            }
        },
    }
    app.main_view = MainView::BranchSelection;
}

/// Takes the working diff read again on Control-R.
pub fn apply_diff_refresh(app: &mut App, diff: Result<GitDiffData, String>)
    ensures
        final(app)@ == diff_refreshed(old(app)@, diff_view(diff)),
{
    match diff {
        Ok(data) => {
            app.load_git_diff(data);
            let mut status = String::from_str("Git diff refreshed: ");
            let summary = app.git_diff_data.summary();
            push_str(&mut status, summary.as_str());
            app.git_status = status;
        },
        Err(e) => {
            let mut status = String::from_str("Error loading git diff: ");
            push_str(&mut status, e.as_str());
            app.git_status = status;
        },
    }
}

/// Takes the working diff read after a branch was selected, and moves on to the form.
pub fn apply_branch_diff(app: &mut App, diff: Result<GitDiffData, String>)
    ensures
        final(app)@ == branch_diff_loaded(old(app)@, diff_view(diff)),
{
    match diff {
        Ok(data) => {
            app.load_git_diff(data);
        },
        Err(e) => {
            let mut status = String::from_str("Error loading git diff: ");
            push_str(&mut status, e.as_str());
            app.git_status = status;
        },
    }
    app.main_view = MainView::Form;
}

/// Takes the outcome of writing the user information out.
pub fn apply_user_info_store(app: &mut App, result: Result<(), String>)
    ensures
        final(app)@ == user_info_written(old(app)@, write_view(result)),
{
    match result {
        Ok(()) => {
            app.finish_user_info_save();
            app.main_view = MainView::BranchSelection;
        },
        Err(e) => {
            let mut status = String::from_str("Save error: ");
            push_str(&mut status, e.as_str());
            app.git_status = status;
        },
    }
}

/// `v` opened on a project folder named at start-up, given the result of
/// listing its branches (`Err` holds the message of a listing that failed).
pub open spec fn project_opened(v: AppView, folder: Seq<char>, branches: Result<Seq<Seq<char>>, Seq<char>>) -> AppView {
    let w = AppView { project_folder: folder, ..v };
    match branches {
        Ok(b) => with_branches(w, b),
        Err(e) => AppView { git_status: "Error loading branches from "@ + folder + ": "@ + e, ..w },
    }
}

/// Takes the project folder named at start-up and the result of listing its branches.
pub fn open_project(app: &mut App, folder: String, branches: Result<Vec<String>, String>)
    ensures
        final(app)@ == project_opened(old(app)@, folder@, listing_view(branches)),
{
    app.project_folder = folder;
    match branches {
        Ok(list) => app.load_branches(list),
        Err(e) => {
            let mut status = String::from_str("Error loading branches from ");
            push_str(&mut status, app.project_folder.as_str());
            push_str(&mut status, ": ");
            push_str(&mut status, e.as_str());
            app.git_status = status;
        },
    }
}

/// Left undoes right and right undoes left on the four tabs, and four
/// presses of either come back to the tab one started from.
pub proof fn lemma_tabs_go_round(view: MainView)
    requires
        view != MainView::UserInfo,
    ensures
        view_before(view_after(view)) == view,
        view_after(view_before(view)) == view,
        view_after(view_after(view_after(view_after(view)))) == view,
        view_before(view_before(view_before(view_before(view)))) == view,
        view_after(view) != MainView::UserInfo,
        view_before(view) != MainView::UserInfo,
{
}

/// Down walks the five questions in their order and stops at the last; Up
/// walks them back and stops at the first. Each question has its own place
/// among the five.
pub proof fn lemma_steps_walk_in_order(step: FormStep, other: FormStep)
    ensures
        step_position(following_step(step)) == if step_position(step) < 4 { step_position(step) + 1 } else { 4 },
        step_position(preceding_step(step)) == if step_position(step) > 0 { (step_position(step) - 1) as nat } else { 0 },
        step_position(step) < 5,
        step_position(step) == step_position(other) ==> step == other,
{
}

/// Up undoes down except on the last question, and down undoes up except on the first.
pub proof fn lemma_steps_undo(step: FormStep)
    ensures
        step != FormStep::FutureConsiderations ==> preceding_step(following_step(step)) == step,
        step != FormStep::ProblemStatement ==> following_step(preceding_step(step)) == step,
        following_step(FormStep::FutureConsiderations) == FormStep::FutureConsiderations,
        preceding_step(FormStep::ProblemStatement) == FormStep::ProblemStatement,
{
}

/// The program quits on Esc, and only on Esc, when no prompt is shown and
/// the user information screen is not open.
pub proof fn lemma_quit_only_on_esc(v: AppView, k: KeyInput)
    ensures
        input_step(v, k).1 == InputOutcome::Quit <==> (!v.show_user_info_prompt && k.code == KeyCode::Esc
            && v.main_view != MainView::UserInfo),
{
}

/// A key press never changes the loaded diff, the branch list or the
/// project folder; those change only when something is read.
pub proof fn lemma_keys_keep_loaded_data(v: AppView, k: KeyInput)
    ensures
        input_step(v, k).0.git_diff_data == v.git_diff_data,
        input_step(v, k).0.available_branches == v.available_branches,
        input_step(v, k).0.project_folder == v.project_folder,
{
}

/// The branch selection points into the branch list, unless the list is empty.
pub open spec fn selection_in_range(v: AppView) -> bool {
    v.available_branches.len() == 0 || v.selected_branch_index < v.available_branches.len()
}

/// The selection stays in range through every key press and every result
/// of outside work.
pub proof fn lemma_selection_stays_in_range(
    v: AppView,
    k: KeyInput,
    folder: Seq<char>,
    branches: Result<Seq<Seq<char>>, Seq<char>>,
    diff: Result<GitDiffDataView, Seq<char>>,
    written: Result<(), Seq<char>>,
)
    requires
        selection_in_range(v),
    ensures
        selection_in_range(input_step(v, k).0),
        selection_in_range(folder_chosen(v, folder, branches)),
        selection_in_range(diff_refreshed(v, diff)),
        selection_in_range(branch_diff_loaded(v, diff)),
        selection_in_range(user_info_written(v, written)),
        selection_in_range(project_opened(v, folder, branches)),
{
}

/// On branch selection, up moves the selection one entry back and stops at
/// the first, down moves it one entry on and stops at the last; the
/// selection stays in range, the program goes on, and nothing else changes.
pub proof fn lemma_branch_keys_move_selection(v: AppView, k: KeyInput)
    requires
        !v.show_user_info_prompt,
        v.main_view == MainView::BranchSelection,
        v.selected_branch_index < v.available_branches.len() || v.selected_branch_index == 0,
        k.code == KeyCode::Up || k.code == KeyCode::Down,
    ensures
        ({
            let (w, outcome) = input_step(v, k);
            let i = v.selected_branch_index;
            let n = v.available_branches.len();
            &&& outcome == InputOutcome::Continue
            &&& k.code == KeyCode::Up ==> w.selected_branch_index == if i > 0 { (i - 1) as nat } else { 0 }
            &&& k.code == KeyCode::Down ==> w.selected_branch_index == if i + 1 <= last_index(n) { i + 1 } else { last_index(n) }
            &&& w.selected_branch_index < n || w.selected_branch_index == 0
            &&& w == AppView { selected_branch_index: w.selected_branch_index, ..v }
        }),
{
}

/// Start-up leaves the selection in range.
pub proof fn lemma_startup_selection_in_range(
    u: crate::tui::app::UserInfoView,
    branches: Option<Seq<Seq<char>>>,
    diff: Option<GitDiffDataView>,
)
    ensures
        selection_in_range(crate::tui::app::startup_state(u, branches, diff)),
{
}

/// Typing a character on the form appends it to the answer being edited and
/// leaves the other answers alone; backspace then takes it off again.
pub proof fn lemma_type_then_backspace(v: AppView, c: char)
    requires
        !v.show_user_info_prompt,
        v.main_view == MainView::Form,
        v.input_buffers.len() == 5,
        c != '0',
    ensures
        ({
            let typed = input_step(v, KeyInput { code: KeyCode::Char(c), ctrl: false }).0;
            let erased = input_step(typed, KeyInput { code: KeyCode::Backspace, ctrl: false }).0;
            &&& current_answer(typed) == current_answer(v).push(c)
            &&& forall|i: int| 0 <= i < 5 && i != step_position(v.current_step) ==>
                #[trigger] typed.input_buffers[i] == v.input_buffers[i]
            &&& erased.input_buffers == v.input_buffers
        }),
{
    let typed = input_step(v, KeyInput { code: KeyCode::Char(c), ctrl: false }).0;
    let erased = input_step(typed, KeyInput { code: KeyCode::Backspace, ctrl: false }).0;
    let p = step_position(v.current_step) as int;
    assert(current_answer(v).push(c).drop_last() =~= current_answer(v));
    assert(erased.input_buffers =~= v.input_buffers);
}


} // verus!
