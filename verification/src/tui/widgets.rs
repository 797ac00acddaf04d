use crate::git_diff::{views_of, GitFileChange};
use crate::tui::app::{field_value, App, UserInfoField};
use crate::text::{decimal, push_decimal, push_str};
use vstd::prelude::*;
use vstd::utf8::{decode_utf8, encode_utf8, encode_utf8_decode_utf8, is_char_boundary};

verus! {

/// How costly a request of some size would be.
#[derive(Clone, Copy, Debug, PartialEq, Eq, Structural)]
pub enum CostLevel {
    Low,
    Moderate,
    High,
    VeryHigh,
}

/// The cost level of a token count: under 1000 low, under 4000 moderate,
/// under 8000 high, and very high from there.
pub open spec fn cost_level_of(total_tokens: nat) -> CostLevel {
    if total_tokens < 1000 {
        CostLevel::Low
    } else if total_tokens < 4000 {
        CostLevel::Moderate
    } else if total_tokens < 8000 {
        CostLevel::High
    } else {
        CostLevel::VeryHigh
    }
}

/// The cost level of `total_tokens`.
pub fn cost_level(total_tokens: usize) -> (l: CostLevel)
    ensures
        l == cost_level_of(total_tokens as nat),
{
    if total_tokens < 1000 {
        CostLevel::Low
    } else if total_tokens < 4000 {
        CostLevel::Moderate
    } else if total_tokens < 8000 {
        CostLevel::High
    } else {
        CostLevel::VeryHigh
    }
}

/// The warning shown for a cost level.
pub open spec fn cost_label_text(level: CostLevel) -> Seq<char> {
    match level {
        CostLevel::Low => "Low cost"@,
        CostLevel::Moderate => "Moderate cost"@,
        CostLevel::High => "High cost"@,
        CostLevel::VeryHigh => "Very high cost!"@,
    }
}

/// The warning shown for `level`.
pub fn cost_label(level: CostLevel) -> (s: &'static str)
    ensures
        s@ == cost_label_text(level),
{
    match level {
        CostLevel::Low => "Low cost",
        CostLevel::Moderate => "Moderate cost",
        CostLevel::High => "High cost",
        CostLevel::VeryHigh => "Very high cost!",
    }
}

/// A branch in the selection list: marked when it is the current one.
pub open spec fn branch_entry(branch: Seq<char>, current: Seq<char>) -> Seq<char> {
    if branch == current {
        "● "@ + branch + " (current)"@
    } else {
        "  "@ + branch
    }
}

/// The text of `branch` in the selection list.
pub fn branch_entry_text(branch: &String, current: &String) -> (s: String)
    ensures
        s@ == branch_entry(branch@, current@),
{
    let mut s = String::new();
    if *branch == *current {
        push_str(&mut s, "● ");
        push_str(&mut s, branch.as_str());
        push_str(&mut s, " (current)");
    } else {
        push_str(&mut s, "  ");
        push_str(&mut s, branch.as_str());
    }
    s
}

/// What the branch panel says when there is no branch to show.
pub open spec fn no_branches_notice(project_folder: Seq<char>) -> Seq<char> {
    if project_folder == "."@ {
        "No project selected. Press '0' to select a project folder."@
    } else {
        "No branches found in the selected project or not a git repository."@
    }
}

/// What the branch panel says when there is no branch to show in `project_folder`.
pub fn branch_panel_notice(project_folder: &String) -> (s: String)
    ensures
        s@ == no_branches_notice(project_folder@),
{
    let dot = String::from_str(".");
    if *project_folder == dot {
        String::from_str("No project selected. Press '0' to select a project folder.")
    } else {
        String::from_str("No branches found in the selected project or not a git repository.")
    }
}

/// How many diff lines of a file the diff viewer shows.
pub open spec fn preview_limit() -> nat {
    5
}

/// The lines the diff viewer shows for a file: its first five diff lines,
/// indented, then a note of how many more there are, if any.
pub open spec fn preview_lines(lines: Seq<Seq<char>>) -> Seq<Seq<char>> {
    let shown = if lines.len() <= preview_limit() { lines } else { lines.take(preview_limit() as int) };
    let indented = shown.map_values(|l: Seq<char>| "  "@ + l);
    if lines.len() > preview_limit() {
        indented.push("  ... ("@ + decimal((lines.len() - preview_limit()) as nat) + " more lines)"@)
    } else {
        indented
    }
}

/// The lines the diff viewer shows for `file`.
pub fn diff_preview(file: &GitFileChange) -> (shown: Vec<String>)
    ensures
        views_of(shown@) == preview_lines(views_of(file.diff_lines@)),
{
    let ghost ls = views_of(file.diff_lines@);
    let n = file.diff_lines.len();
    let limit: usize = if n <= 5 { n } else { 5 };
    let mut shown: Vec<String> = Vec::new();
    let mut i: usize = 0;
    while i < limit
        invariant
            i <= limit,
            limit <= n,
            n == file.diff_lines@.len(),
            limit == (if n <= 5 { n } else { 5 }),
            ls == views_of(file.diff_lines@),
            views_of(shown@) == ls.take(i as int).map_values(|l: Seq<char>| "  "@ + l),
        decreases limit - i,
    {
        let mut s = String::new();
        push_str(&mut s, "  ");
        push_str(&mut s, file.diff_lines[i].as_str());
        proof {
            assert(views_of(shown@.push(s)) =~= views_of(shown@).push(s@));
            assert(ls.take(i + 1).map_values(|l: Seq<char>| "  "@ + l) =~= ls.take(i as int).map_values(
                |l: Seq<char>| "  "@ + l,
            ).push("  "@ + ls[i as int]));
        }
        shown.push(s);
        i = i + 1;
    }
    proof {
        if n <= 5 {
            assert(ls.take(n as int) =~= ls);
        }
    }
    if n > 5 {
        let mut note = String::new();
        push_str(&mut note, "  ... (");
        push_decimal(&mut note, n - 5);
        push_str(&mut note, " more lines)");
        proof {
            assert(views_of(shown@.push(note)) =~= views_of(shown@).push(note@));
        }
        shown.push(note);
    }
    shown
}

/// A file name as the heatmap shows it: names over 30 bytes are cut to their
/// first 27 bytes, followed by "...".
pub open spec fn display_name(name: Seq<char>) -> Seq<char> {
    let bytes = encode_utf8(name);
    if bytes.len() > 30 {
        decode_utf8(bytes.subrange(0, 27)) + "..."@
    } else {
        name
    }
}

/// The heatmap name of `filename`; a name over 30 bytes must not have a
/// character that straddles its 27th byte.
pub fn short_file_name(filename: &str) -> (s: String)
    requires
        encode_utf8(filename@).len() > 30 ==> is_char_boundary(encode_utf8(filename@), 27),
    ensures
        s@ == display_name(filename@),
{
    if filename.as_bytes().len() > 30 {
        let (head, _) = filename.split_at(27);
        proof {
            encode_utf8_decode_utf8(head@);
        }
        let mut s = String::from_str(head);
        push_str(&mut s, "...");
        s
    } else {
        String::from_str(filename)
    }
}

/// The level of a cost index.
pub open spec fn level_rank(level: CostLevel) -> nat {
    match level {
        CostLevel::Low => 0,
        CostLevel::Moderate => 1,
        CostLevel::High => 2,
        CostLevel::VeryHigh => 3,
    }
}

/// More tokens never give a lower cost level.
pub proof fn lemma_cost_level_monotone(a: nat, b: nat)
    requires
        a <= b,
    ensures
        level_rank(cost_level_of(a)) <= level_rank(cost_level_of(b)),
{
}

/// How the diff viewer colours a file's status.
#[derive(Clone, Copy, Debug, PartialEq, Eq, Structural)]
pub enum StatusTone {
    Added,
    Deleted,
    Modified,
    Renamed,
    Untracked,
    Plain,
}

/// The tone of a status word; words it does not know are plain.
pub open spec fn tone_of(status: Seq<char>) -> StatusTone {
    if status == "added"@ {
        StatusTone::Added
    } else if status == "deleted"@ {
        StatusTone::Deleted
    } else if status == "modified"@ {
        StatusTone::Modified
    } else if status == "renamed"@ {
        StatusTone::Renamed
    } else if status == "untracked"@ {
        StatusTone::Untracked
    } else {
        StatusTone::Plain
    }
}

/// The tone of `status`.
pub fn status_tone(status: &String) -> (t: StatusTone)
    ensures
        t == tone_of(status@),
{
    if *status == String::from_str("added") {
        StatusTone::Added
    } else if *status == String::from_str("deleted") {
        StatusTone::Deleted
    } else if *status == String::from_str("modified") {
        StatusTone::Modified
    } else if *status == String::from_str("renamed") {
        StatusTone::Renamed
    } else if *status == String::from_str("untracked") {
        StatusTone::Untracked
    } else {
        StatusTone::Plain
    }
}

/// What the user information screen shows in a field: the edit buffer for
/// the field being edited, the stored value for the others.
pub fn shown_field_value(app: &App, field: UserInfoField) -> (s: String)
    ensures
        s@ == (if app@.current_user_field == field { app@.user_info_buffer } else { field_value(app@.user_info, field) }),
{
    if app.current_user_field == field {
        app.user_info_buffer.clone()
    } else {
        match field {
            UserInfoField::Name => app.user_info.name.clone(),
            UserInfoField::EmployeeNumber => app.user_info.employee_number.clone(),
            UserInfoField::Designation => app.user_info.designation.clone(),
        }
    }
}

} // verus!
