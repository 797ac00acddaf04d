use crate::git_diff::{
    empty_diff, summary_text, views_of, GitDiffData, GitDiffDataView, GitFileChange, GitFileChangeView,
};
use crate::text::{
    blank, chars_of, push_char, push_decimal, push_str, decimal, contains_from, contains_seq, is_blank, is_white_space, trim_start,
    trim_start_index, unicode_white_space, lemma_contains_after_trim_start,
};
use vstd::prelude::*;
use vstd::utf8::encode_utf8;

verus! {

/// The panel shown in the main area.
#[derive(Clone, Copy, Debug, PartialEq, Eq, Structural)]
pub enum MainView {
    BranchSelection,
    Form,
    GitDiff,
    LLMStats,
    UserInfo,
}

/// The field of the user information being edited.
#[derive(Clone, Copy, Debug, PartialEq, Eq, Structural)]
pub enum UserInfoField {
    Name,
    EmployeeNumber,
    Designation,
}

/// Who the user is.
#[derive(Clone, Debug)]
pub struct UserInfo {
    pub name: String,
    pub employee_number: String,
    pub designation: String,
    pub is_configured: bool,
}

/// The mathematical content of a [`UserInfo`].
pub struct UserInfoView {
    pub name: Seq<char>,
    pub employee_number: Seq<char>,
    pub designation: Seq<char>,
    pub is_configured: bool,
}

impl View for UserInfo {
    type V = UserInfoView;

    open spec fn view(&self) -> UserInfoView {
        UserInfoView {
            name: self.name@,
            employee_number: self.employee_number@,
            designation: self.designation@,
            is_configured: self.is_configured,
        }
    }
}

/// All three fields hold more than white space.
pub open spec fn user_info_complete(u: UserInfoView) -> bool {
    !is_blank(u.name) && !is_blank(u.employee_number) && !is_blank(u.designation)
}

/// The user information with nothing filled in.
pub open spec fn blank_user_info() -> UserInfoView {
    UserInfoView { name: Seq::empty(), employee_number: Seq::empty(), designation: Seq::empty(), is_configured: false }
}

/// `u` marked configured when it is complete, and as it was otherwise.
pub open spec fn marked_configured(u: UserInfoView) -> UserInfoView {
    if user_info_complete(u) { UserInfoView { is_configured: true, ..u } } else { u }
}

impl UserInfo {
    pub fn new() -> (u: Self)
        ensures
            u@ == blank_user_info(),
    {
        UserInfo {
            name: String::new(),
            employee_number: String::new(),
            designation: String::new(),
            is_configured: false,
        }
    }

    /// Whether every field is filled in with more than white space.
    pub fn is_complete(&self) -> (b: bool)
        ensures
            b == user_info_complete(self@),
    {
        !blank(self.name.as_str()) && !blank(self.employee_number.as_str()) && !blank(self.designation.as_str())
    }

    /// Marks the information configured, if it is complete.
    pub fn mark_configured(&mut self)
        ensures
            final(self)@ == marked_configured(old(self)@),
    {
        if self.is_complete() {
            self.is_configured = true;
        }
    }
}

/// A changed file as the impact heatmap shows it.
#[derive(Clone, Debug)]
pub struct FileImpact {
    pub filename: String,
    pub lines_added: usize,
    pub lines_removed: usize,
    pub functions_modified: usize,
    /// Added plus removed lines, capped at 100.
    pub impact_score: usize,
}

/// The mathematical content of a [`FileImpact`].
pub struct FileImpactView {
    pub filename: Seq<char>,
    pub lines_added: nat,
    pub lines_removed: nat,
    pub functions_modified: nat,
    pub impact_score: nat,
}

impl View for FileImpact {
    type V = FileImpactView;

    open spec fn view(&self) -> FileImpactView {
        FileImpactView {
            filename: self.filename@,
            lines_added: self.lines_added as nat,
            lines_removed: self.lines_removed as nat,
            functions_modified: self.functions_modified as nat,
            impact_score: self.impact_score as nat,
        }
    }
}

/// Estimated token counts of what would be sent to the model.
#[derive(Clone, Copy, Debug)]
pub struct TokenStats {
    pub diff_tokens: usize,
    pub form_tokens: usize,
    pub total_tokens: usize,
}

/// The mathematical content of a [`TokenStats`].
pub struct TokenStatsView {
    pub diff_tokens: nat,
    pub form_tokens: nat,
    pub total_tokens: nat,
}

impl View for TokenStats {
    type V = TokenStatsView;

    open spec fn view(&self) -> TokenStatsView {
        TokenStatsView {
            diff_tokens: self.diff_tokens as nat,
            form_tokens: self.form_tokens as nat,
            total_tokens: self.total_tokens as nat,
        }
    }
}

impl TokenStats {
    pub fn new() -> (t: Self)
        ensures
            t@ == (TokenStatsView { diff_tokens: 0, form_tokens: 0, total_tokens: 0 }),
    {
        TokenStats { diff_tokens: 0, form_tokens: 0, total_tokens: 0 }
    }
}

/// A word starts at `i`: `s[i]` is not white space and is first or follows white space.
pub open spec fn starts_word(s: Seq<char>, i: int) -> bool {
    !unicode_white_space(s[i]) && (i == 0 || unicode_white_space(s[i - 1]))
}

/// The number of maximal runs of non-white-space characters in `s`
/// (what `split_whitespace().count()` gives).
pub open spec fn word_count(s: Seq<char>) -> nat
    decreases s.len(),
{
    if s.len() == 0 {
        0
    } else {
        word_count(s.drop_last()) + if starts_word(s, s.len() - 1) { 1nat } else { 0nat }
    }
}

/// The token estimate of a text: none for an empty text, else the larger of
/// a quarter of its UTF-8 length and a third of its word count.
pub open spec fn token_estimate(s: Seq<char>) -> nat {
    let bytes = encode_utf8(s).len();
    if bytes == 0 {
        0
    } else if bytes / 4 >= word_count(s) / 3 {
        bytes / 4
    } else {
        word_count(s) / 3
    }
}

/// The number of words in `text`, and the fact that it fits the text's length.
fn count_words(text: &str) -> (n: usize)
    ensures
        n == word_count(text@),
{
    let v = chars_of(text);
    let mut n: usize = 0;
    let mut i: usize = 0;
    let mut prev_white = true;
    while i < v.len()
        invariant
            i <= v@.len(),
            v@ == text@,
            n == word_count(v@.take(i as int)),
            n <= i,
            i > 0 ==> prev_white == unicode_white_space(v@[i - 1]),
            i == 0 ==> prev_white,
        decreases v.len() - i,
    {
        let white = is_white_space(v[i]);
        proof {
            let t = v@.take(i + 1);
            assert(t.drop_last() =~= v@.take(i as int));
            assert(t[i as int] == v@[i as int]);
            if i > 0 {
                assert(t[i - 1] == v@[i - 1]);
            }
        }
        if !white && prev_white {
            n = n + 1;
        }
        prev_white = white;
        i = i + 1;
    }
    proof {
        assert(v@.take(v@.len() as int) =~= v@);
    }
    n
}

/// Rough count of the tokens a model would see in `text`.
pub fn estimate_tokens(text: &str) -> (n: usize)
    ensures
        n == token_estimate(text@),
        n <= usize::MAX / 3,
{
    let char_count = text.as_bytes().len();
    let word_count = count_words(text);
    if char_count == 0 {
        0
    } else {
        let base_tokens = char_count / 4;
        let word_adjustment = word_count / 3;
        assert(base_tokens <= usize::MAX / 3);
        if base_tokens >= word_adjustment {
            base_tokens
        } else {
            word_adjustment
        }
    }
}

/// A diff line that adds or removes something that looks like a function:
/// after its `+` or `-`, its content (leading white space trimmed) names
/// one of the usual keywords, or it holds `=>` or `func `.
pub open spec fn mentions_function(line: Seq<char>) -> bool {
    line.len() > 0 && (line[0] == '+' || line[0] == '-') && {
        let content = line.drop_first();
        let t = trim_start(content);
        ||| contains_seq(t, "fn "@)
        ||| contains_seq(t, "function "@)
        ||| contains_seq(t, "def "@)
        ||| contains_seq(t, "void "@)
        ||| contains_seq(t, "int "@)
        ||| contains_seq(t, "public "@)
        ||| contains_seq(t, "private "@)
        ||| contains_seq(t, "async "@)
        ||| contains_seq(content, "=>"@)
        ||| contains_seq(content, "func "@)
    }
}

/// The number of lines of `lines` that mention a function.
pub open spec fn function_change_count(lines: Seq<Seq<char>>) -> nat
    decreases lines.len(),
{
    if lines.len() == 0 {
        0
    } else {
        function_change_count(lines.drop_last()) + if mentions_function(lines.last()) { 1nat } else { 0nat }
    }
}

/// Whether one diff line mentions a function.
fn line_mentions_function(line: &String) -> (b: bool)
    ensures
        b == mentions_function(line@),
{
    let v = chars_of(line.as_str());
    if v.len() == 0 || !(v[0] == '+' || v[0] == '-') {
        return false;
    }
    let ghost content = v@.drop_first();
    let k = trim_start_index(&v, 1);
    proof {
        assert(v@.subrange(1, v@.len() as int) =~= content);
    }
    let found = contains_from(&v, k, &chars_of("fn "))
        || contains_from(&v, k, &chars_of("function "))
        || contains_from(&v, k, &chars_of("def "))
        || contains_from(&v, k, &chars_of("void "))
        || contains_from(&v, k, &chars_of("int "))
        || contains_from(&v, k, &chars_of("public "))
        || contains_from(&v, k, &chars_of("private "))
        || contains_from(&v, k, &chars_of("async "))
        || contains_from(&v, 1, &chars_of("=>"))
        || contains_from(&v, 1, &chars_of("func "));
    found
}

/// Counts the diff lines that add or remove something that looks like a function.
pub fn estimate_function_changes(diff_lines: &[String]) -> (n: usize)
    ensures
        n == function_change_count(crate::git_diff::views_of(diff_lines@)),
{
    let ghost lines = crate::git_diff::views_of(diff_lines@);
    let mut n: usize = 0;
    let mut i: usize = 0;
    while i < diff_lines.len()
        invariant
            i <= diff_lines@.len(),
            lines == crate::git_diff::views_of(diff_lines@),
            n == function_change_count(lines.take(i as int)),
            n <= i,
        decreases diff_lines.len() - i,
    {
        let hit = line_mentions_function(&diff_lines[i]);
        proof {
            assert(lines.take(i + 1).drop_last() =~= lines.take(i as int));
            assert(lines.take(i + 1).last() == diff_lines@[i as int]@);
        }
        if hit {
            n = n + 1;
        }
        i = i + 1;
    }
    proof {
        assert(lines.take(diff_lines@.len() as int) =~= lines);
    }
    n
}

/// The question of the documentation form being answered.
#[derive(Clone, Copy, Debug, PartialEq, Eq, Structural)]
pub enum FormStep {
    ProblemStatement,
    HighLevelOverview,
    CodeStructure,
    KeyChanges,
    FutureConsiderations,
}

/// The position of a form step, from 0 to 4.
pub open spec fn step_position(step: FormStep) -> nat {
    match step {
        FormStep::ProblemStatement => 0,
        FormStep::HighLevelOverview => 1,
        FormStep::CodeStructure => 2,
        FormStep::KeyChanges => 3,
        FormStep::FutureConsiderations => 4,
    }
}

/// The position of `step`, which indexes its answer buffer.
pub fn step_index(step: FormStep) -> (i: usize)
    ensures
        i == step_position(step),
{
    match step {
        FormStep::ProblemStatement => 0,
        FormStep::HighLevelOverview => 1,
        FormStep::CodeStructure => 2,
        FormStep::KeyChanges => 3,
        FormStep::FutureConsiderations => 4,
    }
}

/// The title of the `i`-th form question.
pub open spec fn question_name(i: int) -> Seq<char> {
    if i == 0 {
        "Problem Statement"@
    } else if i == 1 {
        "High-Level Overview"@
    } else if i == 2 {
        "Code Structure"@
    } else if i == 3 {
        "Key Changes"@
    } else {
        "Future Considerations"@
    }
}

fn question_title(i: usize) -> (t: &'static str)
    ensures
        t@ == question_name(i as int),
{
    if i == 0 {
        "Problem Statement"
    } else if i == 1 {
        "High-Level Overview"
    } else if i == 2 {
        "Code Structure"
    } else if i == 3 {
        "Key Changes"
    } else {
        "Future Considerations"
    }
}

/// The whole state of the documentation assistant.
pub struct App {
    pub current_step: FormStep,
    pub input_buffers: [String; 5],
    pub main_view: MainView,
    pub file_impacts: Vec<FileImpact>,
    pub token_stats: TokenStats,
    /// 0..=4, the highlighted step of the flow diagram.
    pub flow_step: usize,
    pub current_branch: String,
    pub git_status: String,
    pub project_folder: String,
    pub available_branches: Vec<String>,
    pub selected_branch_index: usize,
    pub git_diff_data: GitDiffData,
    pub can_submit: bool,
    pub submit_attempted: bool,
    pub user_info: UserInfo,
    pub current_user_field: UserInfoField,
    pub user_info_buffer: String,
    pub show_user_info_prompt: bool,
}

/// The mathematical content of an [`App`].
pub struct AppView {
    pub current_step: FormStep,
    pub input_buffers: Seq<Seq<char>>,
    pub main_view: MainView,
    pub file_impacts: Seq<FileImpactView>,
    pub token_stats: TokenStatsView,
    pub flow_step: nat,
    pub current_branch: Seq<char>,
    pub git_status: Seq<char>,
    pub project_folder: Seq<char>,
    pub available_branches: Seq<Seq<char>>,
    pub selected_branch_index: nat,
    pub git_diff_data: GitDiffDataView,
    pub can_submit: bool,
    pub submit_attempted: bool,
    pub user_info: UserInfoView,
    pub current_user_field: UserInfoField,
    pub user_info_buffer: Seq<char>,
    pub show_user_info_prompt: bool,
}

/// The views of a sequence of file impacts.
pub open spec fn impact_views(v: Seq<FileImpact>) -> Seq<FileImpactView> {
    v.map_values(|f: FileImpact| f@)
}

impl View for App {
    type V = AppView;

    open spec fn view(&self) -> AppView {
        AppView {
            current_step: self.current_step,
            input_buffers: views_of(self.input_buffers@),
            main_view: self.main_view,
            file_impacts: impact_views(self.file_impacts@),
            token_stats: self.token_stats@,
            flow_step: self.flow_step as nat,
            current_branch: self.current_branch@,
            git_status: self.git_status@,
            project_folder: self.project_folder@,
            available_branches: views_of(self.available_branches@),
            selected_branch_index: self.selected_branch_index as nat,
            git_diff_data: self.git_diff_data@,
            can_submit: self.can_submit,
            submit_attempted: self.submit_attempted,
            user_info: self.user_info@,
            current_user_field: self.current_user_field,
            user_info_buffer: self.user_info_buffer@,
            show_user_info_prompt: self.show_user_info_prompt,
        }
    }
}

/// The heatmap entry of a changed file.
pub open spec fn impact_of(f: GitFileChangeView) -> FileImpactView {
    FileImpactView {
        filename: f.file_path,
        lines_added: f.additions,
        lines_removed: f.deletions,
        functions_modified: function_change_count(f.diff_lines),
        impact_score: if f.additions + f.deletions <= 100 { f.additions + f.deletions } else { 100 },
    }
}

/// The form answers joined, each followed by a space.
pub open spec fn form_text(buffers: Seq<Seq<char>>) -> Seq<char>
    decreases buffers.len(),
{
    if buffers.len() == 0 {
        Seq::empty()
    } else {
        form_text(buffers.drop_last()) + buffers.last() + seq![' ']
    }
}

/// Lines, each followed by a newline.
pub open spec fn lines_text(lines: Seq<Seq<char>>) -> Seq<char>
    decreases lines.len(),
{
    if lines.len() == 0 {
        Seq::empty()
    } else {
        lines_text(lines.drop_last()) + lines.last() + seq!['\n']
    }
}

/// The text of the diff that is sent for a file.
pub open spec fn file_diff_text(f: GitFileChangeView) -> Seq<char> {
    "File: "@ + f.file_path + seq!['\n'] + lines_text(f.diff_lines)
}

/// The text of the whole diff that is sent.
pub open spec fn diff_text(files: Seq<GitFileChangeView>) -> Seq<char>
    decreases files.len(),
{
    if files.len() == 0 {
        Seq::empty()
    } else {
        diff_text(files.drop_last()) + file_diff_text(files.last())
    }
}

/// The token counts of the form answers and of the diff.
pub open spec fn token_stats_for(buffers: Seq<Seq<char>>, files: Seq<GitFileChangeView>) -> TokenStatsView {
    let f = token_estimate(form_text(buffers));
    let d = token_estimate(diff_text(files));
    TokenStatsView { form_tokens: f, diff_tokens: d, total_tokens: f + d }
}

/// Every form answer holds more than white space.
pub open spec fn all_answered(buffers: Seq<Seq<char>>) -> bool {
    forall|i: int| 0 <= i < buffers.len() ==> !is_blank(#[trigger] buffers[i])
}

/// `v` with its token counts brought up to date.
pub open spec fn with_token_counts(v: AppView) -> AppView {
    AppView { token_stats: token_stats_for(v.input_buffers, v.git_diff_data.files), ..v }
}

/// `v` with its heatmap brought up to date.
pub open spec fn with_file_impacts(v: AppView) -> AppView {
    AppView { file_impacts: v.git_diff_data.files.map_values(|f: GitFileChangeView| impact_of(f)), ..v }
}

/// `v` after validation: token counts brought up to date, and submission
/// allowed exactly when every answer is filled in and the diff has a file.
pub open spec fn validated(v: AppView) -> AppView {
    AppView {
        token_stats: token_stats_for(v.input_buffers, v.git_diff_data.files),
        can_submit: all_answered(v.input_buffers) && v.git_diff_data.files.len() > 0,
        ..v
    }
}

/// `v` with a freshly read diff: the diff, its summary as status, its heatmap,
/// and validation.
pub open spec fn with_diff(v: AppView, d: GitDiffDataView) -> AppView {
    validated(with_file_impacts(AppView { git_diff_data: d, git_status: summary_text(d), ..v }))
}

/// `v` with a freshly listed set of branches: the first selected, and made
/// current when there is one.
pub open spec fn with_branches(v: AppView, branches: Seq<Seq<char>>) -> AppView {
    AppView {
        available_branches: branches,
        selected_branch_index: 0,
        current_branch: if branches.len() > 0 { branches[0] } else { v.current_branch },
        ..v
    }
}

/// `v` with the selected branch made current, when the selection is valid.
pub open spec fn with_selected_branch(v: AppView) -> AppView {
    if v.selected_branch_index < v.available_branches.len() {
        AppView { current_branch: v.available_branches[v.selected_branch_index as int], ..v }
    } else {
        v
    }
}

/// The validation messages of the form, shown once a submission was tried.
pub open spec fn blank_answer_errors(buffers: Seq<Seq<char>>, n: int) -> Seq<Seq<char>>
    decreases n,
{
    if n <= 0 {
        Seq::empty()
    } else if is_blank(buffers[n - 1]) {
        blank_answer_errors(buffers, n - 1).push(question_name(n - 1) + " is required"@)
    } else {
        blank_answer_errors(buffers, n - 1)
    }
}

/// The message for a form submitted with no changes in the diff.
pub open spec fn no_changes_message() -> Seq<char> {
    "No git changes found. Make some changes to your code first."@
}

/// The form's validation messages: none before a submission was tried;
/// after, one per blank answer, then one when the diff is empty.
pub open spec fn form_errors(v: AppView) -> Seq<Seq<char>> {
    if !v.submit_attempted {
        Seq::empty()
    } else if v.git_diff_data.files.len() == 0 {
        blank_answer_errors(v.input_buffers, v.input_buffers.len() as int).push(no_changes_message())
    } else {
        blank_answer_errors(v.input_buffers, v.input_buffers.len() as int)
    }
}

/// The messages for the missing fields of the user information.
pub open spec fn user_info_errors(u: UserInfoView) -> Seq<Seq<char>> {
    let a: Seq<Seq<char>> = if is_blank(u.name) { seq!["Name is required"@] } else { Seq::empty() };
    let b: Seq<Seq<char>> = if is_blank(u.employee_number) { seq!["Employee Number is required"@] } else { Seq::empty() };
    let c: Seq<Seq<char>> = if is_blank(u.designation) { seq!["Designation is required"@] } else { Seq::empty() };
    a + b + c
}

/// The text of the answers part of the request for the model.
pub open spec fn answers_text(buffers: Seq<Seq<char>>, n: int) -> Seq<char>
    decreases n,
{
    if n <= 0 {
        Seq::empty()
    } else {
        answers_text(buffers, n - 1) + "## "@ + question_name(n - 1) + seq!['\n'] + buffers[n - 1] + "\n\n"@
    }
}

/// The part of the request for the model that shows one file.
pub open spec fn file_prompt(f: GitFileChangeView) -> Seq<char> {
    "### "@ + f.file_path + " ("@ + f.status + ")\n"@ + "```diff\n"@ + lines_text(f.diff_lines) + "```\n\n"@
}

/// The part of the request for the model that shows the files.
pub open spec fn files_prompt(files: Seq<GitFileChangeView>) -> Seq<char>
    decreases files.len(),
{
    if files.len() == 0 {
        Seq::empty()
    } else {
        files_prompt(files.drop_last()) + file_prompt(files.last())
    }
}

/// The request for documentation, made of the answers and the diff.
pub open spec fn prompt_text(v: AppView) -> Seq<char> {
    "# Code Documentation Request\n\n"@ + answers_text(v.input_buffers, v.input_buffers.len() as int)
        + "## Git Changes\n"@ + "Branch: "@ + v.current_branch + seq!['\n'] + "Summary: "@
        + summary_text(v.git_diff_data) + "\n\n"@ + files_prompt(v.git_diff_data.files)
}

/// Appends each of `lines`, followed by a newline, to `s`.
fn push_lines(s: &mut String, lines: &Vec<String>)
    ensures
        final(s)@ == old(s)@ + lines_text(views_of(lines@)),
{
    let ghost ls = views_of(lines@);
    let mut i: usize = 0;
    while i < lines.len()
        invariant
            i <= lines@.len(),
            ls == views_of(lines@),
            s@ == old(s)@ + lines_text(ls.take(i as int)),
        decreases lines.len() - i,
    {
        push_str(s, lines[i].as_str());
        push_char(s, '\n');
        proof {
            assert(ls.take(i + 1).drop_last() =~= ls.take(i as int));
            assert(ls.take(i + 1).last() == lines@[i as int]@);
        }
        i = i + 1;
    }
    proof {
        assert(ls.take(lines@.len() as int) =~= ls);
    }
}

/// The form answers joined, each followed by a space.
fn form_text_of(buffers: &[String; 5]) -> (s: String)
    ensures
        s@ == form_text(views_of(buffers@)),
{
    let ghost bs = views_of(buffers@);
    let mut s = String::new();
    let mut i: usize = 0;
    while i < 5
        invariant
            i <= 5,
            buffers@.len() == 5,
            bs == views_of(buffers@),
            s@ == form_text(bs.take(i as int)),
        decreases 5 - i,
    {
        push_str(&mut s, buffers[i].as_str());
        push_char(&mut s, ' ');
        proof {
            assert(bs.take(i + 1).drop_last() =~= bs.take(i as int));
            assert(bs.take(i + 1).last() == buffers@[i as int]@);
        }
        i = i + 1;
    }
    proof {
        assert(bs.take(5) =~= bs);
    }
    s
}

/// The text of the whole diff that is sent.
fn diff_text_of(files: &Vec<GitFileChange>) -> (s: String)
    ensures
        s@ == diff_text(crate::git_diff::file_views(files@)),
{
    let ghost fs = crate::git_diff::file_views(files@);
    let mut s = String::new();
    let mut i: usize = 0;
    while i < files.len()
        invariant
            i <= files@.len(),
            fs == crate::git_diff::file_views(files@),
            s@ == diff_text(fs.take(i as int)),
        decreases files.len() - i,
    {
        let ghost before = s@;
        push_str(&mut s, "File: ");
        push_str(&mut s, files[i].file_path.as_str());
        push_char(&mut s, '\n');
        push_lines(&mut s, &files[i].diff_lines);
        proof {
            assert(fs.take(i + 1).drop_last() =~= fs.take(i as int));
            assert(fs.take(i + 1).last() == files@[i as int]@);
            assert(s@ =~= before + file_diff_text(files@[i as int]@));
        }
        i = i + 1;
    }
    proof {
        assert(fs.take(files@.len() as int) =~= fs);
    }
    s
}

/// The heatmap entry of one changed file.
fn impact_for(f: &GitFileChange) -> (r: FileImpact)
    ensures
        r@ == impact_of(f@),
{
    let score = if f.additions <= 100 && f.deletions <= 100 - f.additions {
        f.additions + f.deletions
    } else {
        100
    };
    FileImpact {
        filename: f.file_path.clone(),
        lines_added: f.additions,
        lines_removed: f.deletions,
        functions_modified: estimate_function_changes(f.diff_lines.as_slice()),
        impact_score: score,
    }
}

impl App {
    /// Rebuilds the heatmap from the current diff.
    pub fn update_file_impacts(&mut self)
        ensures
            final(self)@ == with_file_impacts(old(self)@),
    {
        let ghost fs = self.git_diff_data@.files;
        let mut impacts: Vec<FileImpact> = Vec::new();
        let mut i: usize = 0;
        while i < self.git_diff_data.files.len()
            invariant
                i <= self.git_diff_data.files@.len(),
                fs == self.git_diff_data@.files,
                impact_views(impacts@) == fs.take(i as int).map_values(|f: GitFileChangeView| impact_of(f)),
            decreases self.git_diff_data.files.len() - i,
        {
            let entry = impact_for(&self.git_diff_data.files[i]);
            proof {
                assert(fs[i as int] == self.git_diff_data.files@[i as int]@);
                assert(impact_views(impacts@.push(entry)) =~= impact_views(impacts@).push(entry@));
                assert(fs.take(i + 1).map_values(|f: GitFileChangeView| impact_of(f)) =~= fs.take(i as int).map_values(|f: GitFileChangeView| impact_of(f)).push(impact_of(fs[i as int])));
            }
            impacts.push(entry);
            i = i + 1;
        }
        proof {
            assert(fs.take(fs.len() as int) =~= fs);
        }
        self.file_impacts = impacts;
    }

    /// Recounts the estimated tokens of the answers and of the diff.
    pub fn update_token_counts(&mut self)
        ensures
            final(self)@ == with_token_counts(old(self)@),
    {
        let form = form_text_of(&self.input_buffers);
        let form_tokens = estimate_tokens(form.as_str());
        let diff = diff_text_of(&self.git_diff_data.files);
        let diff_tokens = estimate_tokens(diff.as_str());
        self.token_stats = TokenStats { diff_tokens, form_tokens, total_tokens: form_tokens + diff_tokens };
    }

    /// Recounts the tokens and decides whether the form can be submitted.
    pub fn validate_form(&mut self)
        ensures
            final(self)@ == validated(old(self)@),
    {
        self.update_token_counts();
        let mut all_filled = true;
        let mut i: usize = 0;
        while i < 5
            invariant
                i <= 5,
                self.input_buffers@.len() == 5,
                all_filled == (forall|j: int| 0 <= j < i ==> !is_blank(#[trigger] self.input_buffers@[j]@)),
            decreases 5 - i,
        {
            if blank(self.input_buffers[i].as_str()) {
                all_filled = false;
            }
            i = i + 1;
        }
        let has_git_changes = !self.git_diff_data.is_empty();
        self.can_submit = all_filled && has_git_changes;
        proof {
            let bs = views_of(self.input_buffers@);
            assert(bs.len() == 5);
            assert forall|j: int| 0 <= j < bs.len() implies #[trigger] bs[j] == self.input_buffers@[j]@ by {}
            if all_filled {
                assert forall|j: int| 0 <= j < bs.len() implies !is_blank(#[trigger] bs[j]) by {
                    assert(!is_blank(self.input_buffers@[j]@));
                }
            } else {
                let j = choose|j: int| 0 <= j < 5 && is_blank(#[trigger] self.input_buffers@[j]@);
                assert(is_blank(bs[j]));
            }
        }
    }
}

impl App {
    /// Takes a freshly read diff: shows its summary as status, rebuilds the
    /// heatmap and the token counts, and validates the form.
    pub fn load_git_diff(&mut self, data: GitDiffData)
        ensures
            final(self)@ == with_diff(old(self)@, data@),
    {
        self.git_diff_data = data;
        self.git_status = self.git_diff_data.summary();
        self.update_file_impacts();
        self.update_token_counts();
        self.validate_form();
    }

    /// Takes a freshly listed set of local branches and selects the first.
    pub fn load_branches(&mut self, branches: Vec<String>)
        ensures
            final(self)@ == with_branches(old(self)@, views_of(branches@)),
    {
        self.available_branches = branches;
        self.selected_branch_index = 0;
        if self.available_branches.len() > 0 {
            self.current_branch = self.available_branches[0].clone();
        }
    }

    /// Makes the selected branch the current one, when the selection is valid.
    pub fn select_current_branch(&mut self)
        ensures
            final(self)@ == with_selected_branch(old(self)@),
    {
        if self.available_branches.len() > 0 && self.selected_branch_index < self.available_branches.len() {
            self.current_branch = self.available_branches[self.selected_branch_index].clone();
        }
    }

    /// The validation messages of the form.
    pub fn get_form_errors(&self) -> (errors: Vec<String>)
        ensures
            views_of(errors@) == form_errors(self@),
    {
        let mut errors: Vec<String> = Vec::new();
        let ghost bs = views_of(self.input_buffers@);
        if self.submit_attempted {
            let mut i: usize = 0;
            while i < 5
                invariant
                    i <= 5,
                    self.input_buffers@.len() == 5,
                    bs == views_of(self.input_buffers@),
                    views_of(errors@) == blank_answer_errors(bs, i as int),
                decreases 5 - i,
            {
                if blank(self.input_buffers[i].as_str()) {
                    let mut message = String::new();
                    push_str(&mut message, question_title(i));
                    push_str(&mut message, " is required");
                    proof {
                        assert(views_of(errors@.push(message)) =~= views_of(errors@).push(message@));
                    }
                    errors.push(message);
                }
                proof {
                    assert(bs[i as int] == self.input_buffers@[i as int]@);
                }
                i = i + 1;
            }
            if self.git_diff_data.is_empty() {
                let message = String::from_str("No git changes found. Make some changes to your code first.");
                proof {
                    assert(views_of(errors@.push(message)) =~= views_of(errors@).push(message@));
                }
                errors.push(message);
            }
        } else {
            proof {
                assert(views_of(errors@) =~= Seq::<Seq<char>>::empty());
            }
        }
        errors
    }

    /// The request for documentation: the answers under their titles, then
    /// the branch, the diff summary and each file's diff.
    pub fn llm_prompt(&self) -> (prompt: String)
        ensures
            prompt@ == prompt_text(self@),
    {
        let mut prompt = String::new();
        push_str(&mut prompt, "# Code Documentation Request\n\n");
        let ghost head = prompt@;
        let ghost bs = views_of(self.input_buffers@);
        let mut i: usize = 0;
        while i < 5
            invariant
                i <= 5,
                self.input_buffers@.len() == 5,
                bs == views_of(self.input_buffers@),
                prompt@ == head + answers_text(bs, i as int),
            decreases 5 - i,
        {
            push_str(&mut prompt, "## ");
            push_str(&mut prompt, question_title(i));
            push_char(&mut prompt, '\n');
            push_str(&mut prompt, self.input_buffers[i].as_str());
            push_str(&mut prompt, "\n\n");
            proof {
                assert(bs[i as int] == self.input_buffers@[i as int]@);
                assert(prompt@ =~= head + answers_text(bs, i + 1));
            }
            i = i + 1;
        }
        push_str(&mut prompt, "## Git Changes\n");
        push_str(&mut prompt, "Branch: ");
        push_str(&mut prompt, self.current_branch.as_str());
        push_char(&mut prompt, '\n');
        push_str(&mut prompt, "Summary: ");
        let summary = self.git_diff_data.summary();
        push_str(&mut prompt, summary.as_str());
        push_str(&mut prompt, "\n\n");
        let ghost middle = prompt@;
        let ghost fs = self.git_diff_data@.files;
        let mut j: usize = 0;
        while j < self.git_diff_data.files.len()
            invariant
                j <= self.git_diff_data.files@.len(),
                fs == self.git_diff_data@.files,
                prompt@ == middle + files_prompt(fs.take(j as int)),
            decreases self.git_diff_data.files.len() - j,
        {
            let f = &self.git_diff_data.files[j];
            let ghost before = prompt@;
            push_str(&mut prompt, "### ");
            push_str(&mut prompt, f.file_path.as_str());
            push_str(&mut prompt, " (");
            push_str(&mut prompt, f.status.as_str());
            push_str(&mut prompt, ")\n");
            push_str(&mut prompt, "```diff\n");
            push_lines(&mut prompt, &f.diff_lines);
            push_str(&mut prompt, "```\n\n");
            proof {
                assert(fs.take(j + 1).drop_last() =~= fs.take(j as int));
                assert(fs.take(j + 1).last() == f@);
                assert(prompt@ =~= before + file_prompt(f@));
            }
            j = j + 1;
        }
        proof {
            assert(fs.take(fs.len() as int) =~= fs);
            assert(prompt@ =~= prompt_text(self@));
        }
        prompt
    }
}

/// `v` after the request went out: a status saying so, and the flow diagram
/// on its last step.
pub open spec fn submitted(v: AppView) -> AppView {
    AppView { git_status: "Submitted to LLM successfully!"@, flow_step: 4, ..v }
}

/// `v` validated after a submission was tried.
pub open spec fn submit_checked(v: AppView) -> AppView {
    validated(AppView { submit_attempted: true, ..v })
}

/// `v` after a submission was tried: sent when the form validates, left
/// validated otherwise.
pub open spec fn after_submit_attempt(v: AppView) -> AppView {
    let w = submit_checked(v);
    if w.can_submit { submitted(w) } else { w }
}

/// The value of one field of the user information.
pub open spec fn field_value(u: UserInfoView, f: UserInfoField) -> Seq<char> {
    match f {
        UserInfoField::Name => u.name,
        UserInfoField::EmployeeNumber => u.employee_number,
        UserInfoField::Designation => u.designation,
    }
}

/// `u` with one field set to `value`.
pub open spec fn with_field(u: UserInfoView, f: UserInfoField, value: Seq<char>) -> UserInfoView {
    match f {
        UserInfoField::Name => UserInfoView { name: value, ..u },
        UserInfoField::EmployeeNumber => UserInfoView { employee_number: value, ..u },
        UserInfoField::Designation => UserInfoView { designation: value, ..u },
    }
}

/// The field after `f`, going round.
pub open spec fn next_field(f: UserInfoField) -> UserInfoField {
    match f {
        UserInfoField::Name => UserInfoField::EmployeeNumber,
        UserInfoField::EmployeeNumber => UserInfoField::Designation,
        UserInfoField::Designation => UserInfoField::Name,
    }
}

/// The field before `f`, going round.
pub open spec fn previous_field(f: UserInfoField) -> UserInfoField {
    match f {
        UserInfoField::Name => UserInfoField::Designation,
        UserInfoField::EmployeeNumber => UserInfoField::Name,
        UserInfoField::Designation => UserInfoField::EmployeeNumber,
    }
}

/// `v` with the edit buffer written into the field being edited.
pub open spec fn with_field_saved(v: AppView) -> AppView {
    AppView { user_info: with_field(v.user_info, v.current_user_field, v.user_info_buffer), ..v }
}

/// `v` with the buffer saved, then field `f` being edited with its value in the buffer.
pub open spec fn moved_to_field(v: AppView, f: UserInfoField) -> AppView {
    let w = with_field_saved(v);
    AppView { current_user_field: f, user_info_buffer: field_value(w.user_info, f), ..w }
}

/// `v` on the user information screen, editing the name; the buffer keeps
/// what it holds, or takes the name when it is empty.
pub open spec fn in_user_info_mode(v: AppView) -> AppView {
    AppView {
        main_view: MainView::UserInfo,
        current_user_field: UserInfoField::Name,
        user_info_buffer: if v.user_info_buffer.len() == 0 { v.user_info.name } else { v.user_info_buffer },
        ..v
    }
}

/// `v` with the buffer saved and, when the information is then complete,
/// marked configured.
pub open spec fn user_info_prepared(v: AppView) -> AppView {
    let w = with_field_saved(v);
    AppView { user_info: marked_configured(w.user_info), ..w }
}

/// `v` once the user information is stored.
pub open spec fn user_info_stored(v: AppView) -> AppView {
    AppView { show_user_info_prompt: false, git_status: "User information saved successfully!"@, ..v }
}

/// The message for user information saved with a field left blank.
pub open spec fn incomplete_message() -> Seq<char> {
    "All fields must be filled"@
}

/// The state before anything is loaded.
pub open spec fn initial_state(u: UserInfoView) -> AppView {
    AppView {
        current_step: FormStep::ProblemStatement,
        input_buffers: seq![Seq::<char>::empty(), Seq::empty(), Seq::empty(), Seq::empty(), Seq::empty()],
        main_view: MainView::BranchSelection,
        file_impacts: Seq::empty(),
        token_stats: TokenStatsView { diff_tokens: 0, form_tokens: 0, total_tokens: 0 },
        flow_step: 0,
        current_branch: "main"@,
        git_status: "3 files changed, 18 insertions(+), 4 deletions(-)"@,
        project_folder: "."@,
        available_branches: Seq::empty(),
        selected_branch_index: 0,
        git_diff_data: empty_diff(),
        can_submit: false,
        submit_attempted: false,
        user_info: u,
        current_user_field: UserInfoField::Name,
        user_info_buffer: Seq::empty(),
        show_user_info_prompt: !u.is_configured,
    }
}

/// The state after start-up, given the branches listed in the current
/// directory (`None` when they could not be listed) and its working diff
/// (`None` when it could not be read; only read when the branches were).
pub open spec fn startup_state(
    u: UserInfoView,
    branches: Option<Seq<Seq<char>>>,
    diff: Option<GitDiffDataView>,
) -> AppView {
    let s = initial_state(u);
    match branches {
        Some(b) => {
            let loaded = AppView {
                git_status: "Loaded "@ + decimal(b.len()) + " branches from current directory"@,
                ..with_branches(s, b)
            };
            match diff {
                Some(d) => {
                    let w = with_diff(loaded, d);
                    AppView { git_status: w.git_status + " | "@ + summary_text(d), ..w }
                },
                None => with_token_counts(loaded),
            }
        },
        None => with_token_counts(AppView { git_status: "Not a git repository or no branches found"@, ..s }),
    }
}

/// The views of an optional list of strings.
pub open spec fn optional_views(o: Option<Vec<String>>) -> Option<Seq<Seq<char>>> {
    match o {
        Some(v) => Some(views_of(v@)),
        None => None,
    }
}

/// The view of an optional diff.
pub open spec fn optional_diff(o: Option<GitDiffData>) -> Option<GitDiffDataView> {
    match o {
        Some(d) => Some(d@),
        None => None,
    }
}

impl App {
    /// The state at start-up: `user_info` as stored, `branches` the local
    /// branches of the current directory (`None` when they could not be
    /// listed), `diff` its working diff (`None` when it could not be read).
    pub fn new(user_info: UserInfo, branches: Option<Vec<String>>, diff: Option<GitDiffData>) -> (app: Self)
        ensures
            app@ == startup_state(user_info@, optional_views(branches), optional_diff(diff)),
    {
        let show_prompt = !user_info.is_configured;
        let mut app = App {
            current_step: FormStep::ProblemStatement,
            input_buffers: [String::new(), String::new(), String::new(), String::new(), String::new()],
            main_view: MainView::BranchSelection,
            file_impacts: Vec::new(),
            token_stats: TokenStats::new(),
            flow_step: 0,
            current_branch: String::from_str("main"),
            git_status: String::from_str("3 files changed, 18 insertions(+), 4 deletions(-)"),
            project_folder: String::from_str("."),
            available_branches: Vec::new(),
            selected_branch_index: 0,
            git_diff_data: GitDiffData::new(),
            can_submit: false,
            submit_attempted: false,
            user_info,
            current_user_field: UserInfoField::Name,
            user_info_buffer: String::new(),
            show_user_info_prompt: show_prompt,
        };
        proof {
            assert(app@.input_buffers =~= initial_state(user_info@).input_buffers);
            assert(app@.file_impacts =~= Seq::<FileImpactView>::empty());
            assert(app@.available_branches =~= Seq::<Seq<char>>::empty());
            assert(app@ == initial_state(user_info@));
        }
        match branches {
            Some(list) => {
                app.load_branches(list);
                let mut status = String::from_str("Loaded ");
                push_decimal(&mut status, app.available_branches.len());
                push_str(&mut status, " branches from current directory");
                app.git_status = status;
                match diff {
                    Some(data) => {
                        app.load_git_diff(data);
                        let summary = app.git_diff_data.summary();
                        let mut status = app.git_status.clone();
                        push_str(&mut status, " | ");
                        push_str(&mut status, summary.as_str());
                        app.git_status = status;
                    },
                    None => {
                        app.update_token_counts();
                    },
                }
            },
            None => {
                app.git_status = String::from_str("Not a git repository or no branches found");
                app.update_token_counts();
            },
        }
        app
    }

    /// Sends the request for documentation. For now nothing leaves the
    /// program: the request is built, the status says it went out, and the
    /// flow diagram moves to its last step.
    pub fn submit_to_llm(&mut self) -> (r: Result<(), String>)
        ensures
            r is Ok,
            final(self)@ == submitted(old(self)@),
    {
        let _prompt = self.llm_prompt();
        self.git_status = String::from_str("Submitted to LLM successfully!");
        self.flow_step = 4;
        Ok(())
    }

    /// Tries to submit: marks the attempt, validates, and sends when the form
    /// is complete. Tells whether it was sent.
    pub fn attempt_submit(&mut self) -> (r: Result<bool, String>)
        ensures
            r == Ok::<bool, String>(submit_checked(old(self)@).can_submit),
            final(self)@ == after_submit_attempt(old(self)@),
    {
        self.submit_attempted = true;
        self.validate_form();
        if self.can_submit {
            let _ = self.submit_to_llm();
            Ok(true)
        } else {
            Ok(false)
        }
    }

    /// Opens the user information screen on the name field.
    pub fn enter_user_info_mode(&mut self)
        ensures
            final(self)@ == in_user_info_mode(old(self)@),
    {
        self.main_view = MainView::UserInfo;
        self.current_user_field = UserInfoField::Name;
        if self.user_info_buffer.as_str().is_empty() {
            self.user_info_buffer = self.user_info.name.clone();
        }
    }

    /// Writes the edit buffer into the field being edited.
    pub fn save_current_user_field(&mut self)
        ensures
            final(self)@ == with_field_saved(old(self)@),
    {
        match self.current_user_field {
            UserInfoField::Name => self.user_info.name = self.user_info_buffer.clone(),
            UserInfoField::EmployeeNumber => self.user_info.employee_number = self.user_info_buffer.clone(),
            UserInfoField::Designation => self.user_info.designation = self.user_info_buffer.clone(),
        }
    }

    fn load_user_field(&mut self)
        ensures
            final(self)@ == (AppView {
                user_info_buffer: field_value(old(self)@.user_info, old(self)@.current_user_field),
                ..old(self)@
            }),
    {
        self.user_info_buffer = match self.current_user_field {
            UserInfoField::Name => self.user_info.name.clone(),
            UserInfoField::EmployeeNumber => self.user_info.employee_number.clone(),
            UserInfoField::Designation => self.user_info.designation.clone(),
        };
    }

    /// Saves the buffer and moves to the next field, going round.
    pub fn next_user_info_field(&mut self)
        ensures
            final(self)@ == moved_to_field(old(self)@, next_field(old(self)@.current_user_field)),
    {
        self.save_current_user_field();
        self.current_user_field = match self.current_user_field {
            UserInfoField::Name => UserInfoField::EmployeeNumber,
            UserInfoField::EmployeeNumber => UserInfoField::Designation,
            UserInfoField::Designation => UserInfoField::Name,
        };
        self.load_user_field();
    }

    /// Saves the buffer and moves to the previous field, going round.
    pub fn previous_user_info_field(&mut self)
        ensures
            final(self)@ == moved_to_field(old(self)@, previous_field(old(self)@.current_user_field)),
    {
        self.save_current_user_field();
        self.current_user_field = match self.current_user_field {
            UserInfoField::Name => UserInfoField::Designation,
            UserInfoField::EmployeeNumber => UserInfoField::Name,
            UserInfoField::Designation => UserInfoField::EmployeeNumber,
        };
        self.load_user_field();
    }

    /// Saves the buffer and checks the user information: when it is complete
    /// it is marked configured and is ready to be stored; otherwise an error.
    pub fn save_user_info(&mut self) -> (r: Result<(), String>)
        ensures
            final(self)@ == user_info_prepared(old(self)@),
            user_info_complete(with_field_saved(old(self)@).user_info) <==> r is Ok,
            r matches Err(e) ==> e@ == incomplete_message(),
    {
        self.save_current_user_field();
        if self.user_info.is_complete() {
            self.user_info.mark_configured();
            Ok(())
        } else {
            Err(String::from_str("All fields must be filled"))
        }
    }

    /// Records that the user information was stored.
    pub fn finish_user_info_save(&mut self)
        ensures
            final(self)@ == user_info_stored(old(self)@),
    {
        self.show_user_info_prompt = false;
        self.git_status = String::from_str("User information saved successfully!");
    }

    /// The messages for the blank fields of the user information.
    pub fn get_user_info_errors(&self) -> (errors: Vec<String>)
        ensures
            views_of(errors@) == user_info_errors(self@.user_info),
    {
        let mut errors: Vec<String> = Vec::new();
        if blank(self.user_info.name.as_str()) {
            errors.push(String::from_str("Name is required"));
        }
        if blank(self.user_info.employee_number.as_str()) {
            errors.push(String::from_str("Employee Number is required"));
        }
        if blank(self.user_info.designation.as_str()) {
            errors.push(String::from_str("Designation is required"));
        }
        proof {
            assert(views_of(errors@) =~= user_info_errors(self@.user_info));
        }
        errors
    }
}

proof fn lemma_blank_answer_errors_empty(buffers: Seq<Seq<char>>, n: int)
    requires
        0 <= n <= buffers.len(),
    ensures
        blank_answer_errors(buffers, n).len() == 0 <==> (forall|i: int| 0 <= i < n ==> !is_blank(#[trigger] buffers[i])),
    decreases n,
{
    if n > 0 {
        lemma_blank_answer_errors_empty(buffers, n - 1);
    }
}

/// Once a submission was tried, validation allows submitting exactly when
/// the form shows no error message.
pub proof fn lemma_can_submit_iff_no_form_errors(v: AppView)
    requires
        v.submit_attempted,
    ensures
        validated(v).can_submit <==> form_errors(validated(v)).len() == 0,
{
    lemma_blank_answer_errors_empty(v.input_buffers, v.input_buffers.len() as int);
}

/// Submitting goes through exactly when every answer holds more than white
/// space and the diff has at least one file; then the status says so and the
/// flow diagram reaches its last step.
pub proof fn lemma_submit_goes_through(v: AppView)
    ensures
        submit_checked(v).can_submit <==> (all_answered(v.input_buffers) && v.git_diff_data.files.len() > 0),
        submit_checked(v).can_submit ==> after_submit_attempt(v).flow_step == 4
            && after_submit_attempt(v).git_status == "Submitted to LLM successfully!"@,
        !submit_checked(v).can_submit ==> after_submit_attempt(v).flow_step == v.flow_step,
        after_submit_attempt(v).submit_attempted,
{
}

/// The user information is complete exactly when no field is reported missing.
pub proof fn lemma_complete_iff_no_user_info_errors(u: UserInfoView)
    ensures
        user_info_complete(u) <==> user_info_errors(u).len() == 0,
{
}

/// After a diff is loaded, the heatmap has one entry per file, carrying the
/// file's name and counts, with an impact score of at most 100; and the token
/// total is the sum of the form and diff counts.
pub proof fn lemma_loaded_diff_views(v: AppView, d: GitDiffDataView)
    ensures
        with_diff(v, d).file_impacts.len() == d.files.len(),
        forall|i: int| 0 <= i < d.files.len() ==> {
            let e = #[trigger] with_diff(v, d).file_impacts[i];
            &&& e.filename == d.files[i].file_path
            &&& e.lines_added == d.files[i].additions
            &&& e.lines_removed == d.files[i].deletions
            &&& e.impact_score <= 100
            &&& e.impact_score <= d.files[i].additions + d.files[i].deletions
        },
        with_diff(v, d).token_stats.total_tokens == with_diff(v, d).token_stats.form_tokens
            + with_diff(v, d).token_stats.diff_tokens,
        with_diff(v, d).git_diff_data == d,
{
}

/// Moving to the next field and back leaves the state as saving the buffer
/// alone would: same field, same buffer, the field holding the buffer.
pub proof fn lemma_next_then_previous_field(v: AppView)
    ensures
        moved_to_field(
            moved_to_field(v, next_field(v.current_user_field)),
            previous_field(next_field(v.current_user_field)),
        ) == with_field_saved(v),
{
}

/// Three moves to the next field come back to the field one started from.
pub proof fn lemma_fields_go_round(f: UserInfoField)
    ensures
        next_field(next_field(next_field(f))) == f,
        previous_field(next_field(f)) == f,
        next_field(previous_field(f)) == f,
{
}

/// An empty text has no tokens.
pub proof fn lemma_empty_text_no_tokens()
    ensures
        token_estimate(Seq::<char>::empty()) == 0,
{
    assert(encode_utf8(Seq::<char>::empty()) =~= Seq::<u8>::empty()) by {
        reveal_with_fuel(encode_utf8, 1);
    }
}

/// The token total is always the form count plus the diff count, and both
/// are the estimates of the texts that would be sent.
pub proof fn lemma_token_total(v: AppView)
    ensures
        with_token_counts(v).token_stats.total_tokens == with_token_counts(v).token_stats.form_tokens
            + with_token_counts(v).token_stats.diff_tokens,
        with_token_counts(v).token_stats.form_tokens == token_estimate(form_text(v.input_buffers)),
        with_token_counts(v).token_stats.diff_tokens == token_estimate(diff_text(v.git_diff_data.files)),
        validated(v).token_stats == with_token_counts(v).token_stats,
{
}

/// Loading the same diff again changes nothing.
pub proof fn lemma_reload_same_diff(v: AppView, d: GitDiffDataView)
    ensures
        with_diff(with_diff(v, d), d) == with_diff(v, d),
{
}

/// Counting function changes adds up over joined lists of lines: the count
/// of `a` followed by `b` is the count of `a` plus the count of `b`.
pub proof fn lemma_function_changes_add_up(a: Seq<Seq<char>>, b: Seq<Seq<char>>)
    ensures
        function_change_count(a + b) == function_change_count(a) + function_change_count(b),
    decreases b.len(),
{
    if b.len() == 0 {
        assert(a + b =~= a);
    } else {
        assert((a + b).drop_last() =~= a + b.drop_last());
        assert((a + b).last() == b.last());
        lemma_function_changes_add_up(a, b.drop_last());
    }
}

/// Counting function changes does not depend on the order of the lines:
/// two lists that hold the same lines, as many times each, give the same count.
pub proof fn lemma_function_changes_ignore_order(a: Seq<Seq<char>>, b: Seq<Seq<char>>)
    requires
        a.to_multiset() == b.to_multiset(),
    ensures
        function_change_count(a) == function_change_count(b),
    decreases a.len(),
{
    broadcast use vstd::seq_lib::group_to_multiset_ensures;

    if a.len() == 0 {
        assert(b.to_multiset().len() == 0);
        assert(b.len() == 0);
        assert(b =~= a);
    } else {
        let x = a.last();
        let rest = a.drop_last();
        assert(a =~= rest.push(x));
        assert(a.to_multiset() =~= rest.to_multiset().insert(x));
        assert(b.to_multiset().count(x) > 0);
        assert(b.contains(x));
        let j = choose|j: int| 0 <= j < b.len() && b[j] == x;
        let others = b.remove(j);
        assert(others.to_multiset() =~= b.to_multiset().remove(x));
        assert(others.to_multiset() =~= rest.to_multiset());
        lemma_function_changes_ignore_order(rest, others);
        let front = b.subrange(0, j);
        let back = b.subrange(j + 1, b.len() as int);
        assert(others =~= front + back);
        assert(b =~= front + seq![x] + back);
        lemma_function_changes_add_up(front, back);
        lemma_function_changes_add_up(front, seq![x]);
        lemma_function_changes_add_up(front + seq![x], back);
        assert(seq![x].drop_last() =~= Seq::<Seq<char>>::empty());
        assert(function_change_count(seq![x]) == function_change_count(Seq::<Seq<char>>::empty()) + if mentions_function(x) { 1nat } else { 0nat });
        assert(function_change_count(a) == function_change_count(rest) + if mentions_function(x) { 1nat } else { 0nat });
        assert(function_change_count(b) == function_change_count(front + seq![x] + back));
    }
}

/// What follows the sign of a diff line names something that looks like a
/// function: one of `fn `, `function `, `def `, `void `, `int `, `public `,
/// `private `, `async `, `=>` or `func ` occurs in it.
pub open spec fn names_function(content: Seq<char>) -> bool {
    ||| contains_seq(content, "fn "@)
    ||| contains_seq(content, "function "@)
    ||| contains_seq(content, "def "@)
    ||| contains_seq(content, "void "@)
    ||| contains_seq(content, "int "@)
    ||| contains_seq(content, "public "@)
    ||| contains_seq(content, "private "@)
    ||| contains_seq(content, "async "@)
    ||| contains_seq(content, "=>"@)
    ||| contains_seq(content, "func "@)
}

/// A single diff line counts as one function change exactly when it starts
/// with `+` or `-` and what follows the sign names a function; any other
/// line counts as none.
pub proof fn lemma_function_change_of_one_line(line: Seq<char>)
    ensures
        function_change_count(seq![line]) == if line.len() > 0 && (line[0] == '+' || line[0] == '-')
            && names_function(line.drop_first()) {
            1nat
        } else {
            0nat
        },
{
    reveal_strlit("fn ");
    reveal_strlit("function ");
    reveal_strlit("def ");
    reveal_strlit("void ");
    reveal_strlit("int ");
    reveal_strlit("public ");
    reveal_strlit("private ");
    reveal_strlit("async ");
    let c = line.drop_first();
    lemma_contains_after_trim_start(c, "fn "@);
    lemma_contains_after_trim_start(c, "function "@);
    lemma_contains_after_trim_start(c, "def "@);
    lemma_contains_after_trim_start(c, "void "@);
    lemma_contains_after_trim_start(c, "int "@);
    lemma_contains_after_trim_start(c, "public "@);
    lemma_contains_after_trim_start(c, "private "@);
    lemma_contains_after_trim_start(c, "async "@);
    assert(seq![line].drop_last() =~= Seq::<Seq<char>>::empty());
    assert(seq![line].last() == line);
    assert(function_change_count(Seq::<Seq<char>>::empty()) == 0);
}

/// The diff text covers every file, in order: the text of `a` followed by
/// `b` is the text of `a` followed by the text of `b`, and the text of one
/// file is its header line and its diff lines.
pub proof fn lemma_diff_text_of_each_file(a: Seq<GitFileChangeView>, b: Seq<GitFileChangeView>, f: GitFileChangeView)
    ensures
        diff_text(a + b) == diff_text(a) + diff_text(b),
        diff_text(seq![f]) == file_diff_text(f),
    decreases b.len(),
{
    assert(seq![f].drop_last() =~= Seq::<GitFileChangeView>::empty());
    assert(seq![f].last() == f);
    assert(diff_text(Seq::<GitFileChangeView>::empty()) == Seq::<char>::empty());
    assert(diff_text(seq![f]) == diff_text(Seq::<GitFileChangeView>::empty()) + file_diff_text(f));
    assert(Seq::<char>::empty() + file_diff_text(f) =~= file_diff_text(f));
    if b.len() == 0 {
        assert(a + b =~= a);
        assert(diff_text(a) + Seq::<char>::empty() =~= diff_text(a));
    } else {
        assert((a + b).drop_last() =~= a + b.drop_last());
        assert((a + b).last() == b.last());
        lemma_diff_text_of_each_file(a, b.drop_last(), f);
        assert(diff_text(a) + diff_text(b.drop_last()) + file_diff_text(b.last())
            =~= diff_text(a) + (diff_text(b.drop_last()) + file_diff_text(b.last())));
    }
}

/// After a diff is loaded, each file's impact score is its number of added
/// and removed lines when that is at most 100, and 100 otherwise.
pub proof fn lemma_impact_is_capped_change_size(v: AppView, d: GitDiffDataView)
    ensures
        forall|i: int| 0 <= i < d.files.len() ==> {
            let size = d.files[i].additions + d.files[i].deletions;
            &&& size <= 100 ==> (#[trigger] with_diff(v, d).file_impacts[i]).impact_score == size
            &&& size > 100 ==> with_diff(v, d).file_impacts[i].impact_score == 100
        },
{
}

} // verus!
