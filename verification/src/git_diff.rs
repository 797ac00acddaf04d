use crate::text::{decimal, from_utf8_lossy, push_char, push_decimal, push_str, trim_end, trimmed_end, utf8_lossy};
use vstd::prelude::*;

verus! {

/// The changes of a git diff, file by file, with running totals.
#[derive(Clone, Debug)]
pub struct GitDiffData {
    pub files: Vec<GitFileChange>,
    pub total_additions: usize,
    pub total_deletions: usize,
    pub total_files: usize,
}

/// The changes of one file.
#[derive(Clone, Debug)]
pub struct GitFileChange {
    pub file_path: String,
    /// "modified", "added", "deleted", ...
    pub status: String,
    pub diff_lines: Vec<String>,
    pub additions: usize,
    pub deletions: usize,
}

/// The mathematical content of a [`GitFileChange`].
pub struct GitFileChangeView {
    pub file_path: Seq<char>,
    pub status: Seq<char>,
    pub diff_lines: Seq<Seq<char>>,
    pub additions: nat,
    pub deletions: nat,
}

/// The mathematical content of a [`GitDiffData`].
pub struct GitDiffDataView {
    pub files: Seq<GitFileChangeView>,
    pub total_additions: nat,
    pub total_deletions: nat,
    pub total_files: nat,
}

/// The views of a sequence of strings.
pub open spec fn views_of(lines: Seq<String>) -> Seq<Seq<char>> {
    lines.map_values(|l: String| l@)
}

impl View for GitFileChange {
    type V = GitFileChangeView;

    open spec fn view(&self) -> GitFileChangeView {
        GitFileChangeView {
            file_path: self.file_path@,
            status: self.status@,
            diff_lines: views_of(self.diff_lines@),
            additions: self.additions as nat,
            deletions: self.deletions as nat,
        }
    }
}

/// The views of a sequence of file changes.
pub open spec fn file_views(files: Seq<GitFileChange>) -> Seq<GitFileChangeView> {
    files.map_values(|f: GitFileChange| f@)
}

impl View for GitDiffData {
    type V = GitDiffDataView;

    open spec fn view(&self) -> GitDiffDataView {
        GitDiffDataView {
            files: file_views(self.files@),
            total_additions: self.total_additions as nat,
            total_deletions: self.total_deletions as nat,
            total_files: self.total_files as nat,
        }
    }
}

/// The diff with no files and zero totals.
pub open spec fn empty_diff() -> GitDiffDataView {
    GitDiffDataView { files: Seq::empty(), total_additions: 0, total_deletions: 0, total_files: 0 }
}

/// "<files> files changed, <additions> insertions(+), <deletions> deletions(-)".
pub open spec fn summary_text(d: GitDiffDataView) -> Seq<char> {
    decimal(d.total_files) + " files changed, "@ + decimal(d.total_additions) + " insertions(+), "@
        + decimal(d.total_deletions) + " deletions(-)"@
}

impl GitDiffData {
    pub fn new() -> (d: Self)
        ensures
            d@ == empty_diff(),
    {
        let d = GitDiffData { files: Vec::new(), total_additions: 0, total_deletions: 0, total_files: 0 };
        proof {
            assert(d@.files =~= Seq::<GitFileChangeView>::empty());
        }
        d
    }

    /// Whether no file changed.
    pub fn is_empty(&self) -> (b: bool)
        ensures
            b == (self@.files.len() == 0),
    {
        self.files.len() == 0
    }

    /// The one-line summary of the totals.
    pub fn summary(&self) -> (s: String)
        ensures
            s@ == summary_text(self@),
    {
        let mut s = String::new();
        push_decimal(&mut s, self.total_files);
        push_str(&mut s, " files changed, ");
        push_decimal(&mut s, self.total_additions);
        push_str(&mut s, " insertions(+), ");
        push_decimal(&mut s, self.total_deletions);
        push_str(&mut s, " deletions(-)");
        s
    }
}

/// The kind of change git reports for a file.
#[derive(Clone, Copy, Debug, PartialEq, Eq, Structural)]
pub enum DeltaKind {
    Added,
    Deleted,
    Modified,
    Renamed,
    Copied,
    Untracked,
    Other,
}

/// One event of a diff walk: a file starts, or a line of the current file.
#[derive(Clone, Debug)]
pub enum DiffRecord {
    File { path: String, kind: DeltaKind },
    Line { origin: char, content: Vec<u8> },
}

/// The mathematical content of a [`DiffRecord`].
pub enum DiffRecordView {
    File { path: Seq<char>, kind: DeltaKind },
    Line { origin: char, content: Seq<u8> },
}

impl View for DiffRecord {
    type V = DiffRecordView;

    open spec fn view(&self) -> DiffRecordView {
        match self {
            DiffRecord::File { path, kind } => DiffRecordView::File { path: path@, kind: *kind },
            DiffRecord::Line { origin, content } => DiffRecordView::Line { origin: *origin, content: content@ },
        }
    }
}

/// The status word shown for a kind of change.
pub open spec fn status_label(kind: DeltaKind) -> Seq<char> {
    match kind {
        DeltaKind::Added => "added"@,
        DeltaKind::Deleted => "deleted"@,
        DeltaKind::Modified => "modified"@,
        DeltaKind::Renamed => "renamed"@,
        DeltaKind::Copied => "copied"@,
        DeltaKind::Untracked => "untracked"@,
        DeltaKind::Other => "unknown"@,
    }
}

/// The status word of `kind`.
pub fn status_string(kind: DeltaKind) -> (s: String)
    ensures
        s@ == status_label(kind),
{
    match kind {
        DeltaKind::Added => String::from_str("added"),
        DeltaKind::Deleted => String::from_str("deleted"),
        DeltaKind::Modified => String::from_str("modified"),
        DeltaKind::Renamed => String::from_str("renamed"),
        DeltaKind::Copied => String::from_str("copied"),
        DeltaKind::Untracked => String::from_str("untracked"),
        DeltaKind::Other => String::from_str("unknown"),
    }
}

/// The marker put in front of a diff line: `+` or `-` for an added or a
/// removed line, a space for anything else.
pub open spec fn line_marker(origin: char) -> char {
    if origin == '+' { '+' } else if origin == '-' { '-' } else { ' ' }
}

/// The text a diff line is kept as: its marker, then its content decoded
/// and stripped of trailing white space.
pub open spec fn line_entry(origin: char, content: Seq<u8>) -> Seq<char> {
    seq![line_marker(origin)] + trim_end(utf8_lossy(content))
}

/// The text kept for one diff line.
pub fn diff_line_text(origin: char, content: &[u8]) -> (s: String)
    ensures
        s@ == line_entry(origin, content@),
{
    let decoded = from_utf8_lossy(content);
    let body = trimmed_end(decoded.as_str());
    let mut s = String::new();
    if origin == '+' {
        push_char(&mut s, '+');
    } else if origin == '-' {
        push_char(&mut s, '-');
    } else {
        push_char(&mut s, ' ');
    }
    push_str(&mut s, body.as_str());
    proof {
        assert(s@ =~= line_entry(origin, content@));
    }
    s
}

/// A file entry with no lines yet.
pub open spec fn new_file_entry(path: Seq<char>, kind: DeltaKind) -> GitFileChangeView {
    GitFileChangeView { file_path: path, status: status_label(kind), diff_lines: Seq::empty(), additions: 0, deletions: 0 }
}

/// `f` with one more diff line.
pub open spec fn add_line(f: GitFileChangeView, origin: char, content: Seq<u8>) -> GitFileChangeView {
    GitFileChangeView {
        diff_lines: f.diff_lines.push(line_entry(origin, content)),
        additions: if origin == '+' { f.additions + 1 } else { f.additions },
        deletions: if origin == '-' { f.deletions + 1 } else { f.deletions },
        ..f
    }
}

/// The diff after one more event: a file event opens a new entry; a line
/// event goes to the last entry, and is dropped when there is none.
pub open spec fn apply_record(d: GitDiffDataView, r: DiffRecordView) -> GitDiffDataView {
    match r {
        DiffRecordView::File { path, kind } => GitDiffDataView {
            files: d.files.push(new_file_entry(path, kind)),
            total_files: d.total_files + 1,
            ..d
        },
        DiffRecordView::Line { origin, content } => if d.files.len() == 0 {
            d
        } else {
            GitDiffDataView {
                files: d.files.update(d.files.len() - 1, add_line(d.files.last(), origin, content)),
                total_additions: if origin == '+' { d.total_additions + 1 } else { d.total_additions },
                total_deletions: if origin == '-' { d.total_deletions + 1 } else { d.total_deletions },
                ..d
            }
        },
    }
}

/// The diff that a walk over `records` builds.
pub open spec fn collect_records(records: Seq<DiffRecordView>) -> GitDiffDataView
    decreases records.len(),
{
    if records.len() == 0 {
        empty_diff()
    } else {
        apply_record(collect_records(records.drop_last()), records.last())
    }
}

/// The views of a sequence of records.
pub open spec fn record_views(records: Seq<DiffRecord>) -> Seq<DiffRecordView> {
    records.map_values(|r: DiffRecord| r@)
}

/// The sum of the additions of `files`.
pub open spec fn sum_additions(files: Seq<GitFileChangeView>) -> nat
    decreases files.len(),
{
    if files.len() == 0 { 0 } else { sum_additions(files.drop_last()) + files.last().additions }
}

/// The sum of the deletions of `files`.
pub open spec fn sum_deletions(files: Seq<GitFileChangeView>) -> nat
    decreases files.len(),
{
    if files.len() == 0 { 0 } else { sum_deletions(files.drop_last()) + files.last().deletions }
}

/// The totals of `d` agree with its files: one per file, and the sums of
/// their additions and deletions.
pub open spec fn totals_agree(d: GitDiffDataView) -> bool {
    &&& d.total_files == d.files.len()
    &&& d.total_additions == sum_additions(d.files)
    &&& d.total_deletions == sum_deletions(d.files)
}

/// Builds the diff of a walk over `records`, in which each line event
/// belongs to the file event before it.
pub fn collect_working_diff(records: &Vec<DiffRecord>) -> (d: GitDiffData)
    ensures
        d@ == collect_records(record_views(records@)),
{
    let mut files: Vec<GitFileChange> = Vec::new();
    let mut current: Option<GitFileChange> = None;
    let mut total_files: usize = 0;
    let mut total_additions: usize = 0;
    let mut total_deletions: usize = 0;
    let mut i: usize = 0;
    while i < records.len()
        invariant
            i <= records@.len(),
            total_files + total_additions + total_deletions <= i,
            ({
                let d = collect_records(record_views(records@).take(i as int));
                &&& d.total_files == total_files
                &&& d.total_additions == total_additions
                &&& d.total_deletions == total_deletions
                &&& d.files == match current {
                    None => file_views(files@),
                    Some(f) => file_views(files@).push(f@),
                }
                &&& (current is None ==> files@.len() == 0)
            }),
            forall|j: int| 0 <= j < files@.len() ==> #[trigger] files@[j].additions + files@[j].deletions <= i,
            current matches Some(f) ==> f.additions + f.deletions <= i,
        decreases records.len() - i,
    {
        let ghost before = collect_records(record_views(records@).take(i as int));
        proof {
            assert(record_views(records@).take(i + 1).drop_last() =~= record_views(records@).take(i as int));
            assert(record_views(records@).take(i + 1).last() == records@[i as int]@);
        }
        match &records[i] {
            DiffRecord::File { path, kind } => {
                let entry = GitFileChange {
                    file_path: path.clone(),
                    status: status_string(*kind),
                    diff_lines: Vec::new(),
                    additions: 0,
                    deletions: 0,
                };
                proof {
                    assert(entry@.diff_lines =~= Seq::<Seq<char>>::empty());
                }
                match current {
                    Some(f) => {
                        files.push(f);
                    },
                    None => {},
                }
                current = Some(entry);
                total_files = total_files + 1;
                proof {
                    assert(file_views(files@) =~= before.files);
                }
            },
            DiffRecord::Line { origin, content } => {
                match current {
                    Some(mut f) => {
                        let text = diff_line_text(*origin, content.as_slice());
                        let ghost old_f = f@;
                        f.diff_lines.push(text);
                        if *origin == '+' {
                            f.additions = f.additions + 1;
                            total_additions = total_additions + 1;
                        } else if *origin == '-' {
                            f.deletions = f.deletions + 1;
                            total_deletions = total_deletions + 1;
                        }
                        proof {
                            assert(f@.diff_lines =~= old_f.diff_lines.push(line_entry(*origin, content@)));
                            assert(f@ == add_line(old_f, *origin, content@));
                            assert(file_views(files@).push(f@) =~= before.files.update(before.files.len() - 1, add_line(before.files.last(), *origin, content@)));
                        }
                        current = Some(f);
                    },
                    None => {},
                }
            },
        }
        i = i + 1;
    }
    match current {
        Some(f) => {
            files.push(f);
        },
        None => {},
    }
    let d = GitDiffData { files, total_additions, total_deletions, total_files };
    proof {
        assert(record_views(records@).take(records@.len() as int) =~= record_views(records@));
        assert(d@.files =~= collect_records(record_views(records@)).files);
    }
    d
}

proof fn lemma_sums_push(files: Seq<GitFileChangeView>, f: GitFileChangeView)
    ensures
        sum_additions(files.push(f)) == sum_additions(files) + f.additions,
        sum_deletions(files.push(f)) == sum_deletions(files) + f.deletions,
{
    assert(files.push(f).drop_last() =~= files);
}

proof fn lemma_sums_update_last(files: Seq<GitFileChangeView>, f: GitFileChangeView)
    requires
        files.len() > 0,
    ensures
        sum_additions(files.update(files.len() - 1, f)) == sum_additions(files) - files.last().additions + f.additions,
        sum_deletions(files.update(files.len() - 1, f)) == sum_deletions(files) - files.last().deletions + f.deletions,
{
    assert(files.update(files.len() - 1, f).drop_last() =~= files.drop_last());
}

/// A diff built from any walk has totals that agree with its files: the
/// file count is the number of entries, and the addition and deletion
/// totals are the sums over the entries.
pub proof fn lemma_collected_totals_agree(records: Seq<DiffRecordView>)
    ensures
        totals_agree(collect_records(records)),
    decreases records.len(),
{
    if records.len() > 0 {
        lemma_collected_totals_agree(records.drop_last());
        let d = collect_records(records.drop_last());
        match records.last() {
            DiffRecordView::File { path, kind } => {
                lemma_sums_push(d.files, new_file_entry(path, kind));
            },
            DiffRecordView::Line { origin, content } => {
                if d.files.len() > 0 {
                    lemma_sums_update_last(d.files, add_line(d.files.last(), origin, content));
                }
            },
        }
    } else {
        assert(collect_records(records).files =~= Seq::<GitFileChangeView>::empty());
    }
}

/// How a line compares between two texts.
#[derive(Clone, Copy, Debug, PartialEq, Eq, Structural)]
pub enum LineTag {
    Equal,
    Delete,
    Insert,
}

/// The line-by-line changes that `similar::TextDiff::from_lines` finds
/// between `old` and `new`, each as its tag and its line (newline kept).
pub uninterp spec fn line_changes(old: Seq<char>, new: Seq<char>) -> Seq<(LineTag, Seq<char>)>;

/// The views of a sequence of tagged lines.
pub open spec fn tagged_views(v: Seq<(LineTag, String)>) -> Seq<(LineTag, Seq<char>)> {
    v.map_values(|p: (LineTag, String)| (p.0, p.1@))
}

/// The text that the lines of `changes` make on one side, that is leaving
/// out the lines tagged `skip`: joined in order.
pub open spec fn side_text(changes: Seq<(LineTag, Seq<char>)>, skip: LineTag) -> Seq<char>
    decreases changes.len(),
{
    if changes.len() == 0 {
        Seq::empty()
    } else {
        side_text(changes.drop_last(), skip) + if changes.last().0 != skip {
            changes.last().1
        } else {
            Seq::empty()
        }
    }
}

/// The old side of `changes`: the equal and the deleted lines, joined.
pub open spec fn old_side(changes: Seq<(LineTag, Seq<char>)>) -> Seq<char> {
    side_text(changes, LineTag::Insert)
}

/// The new side of `changes`: the equal and the inserted lines, joined.
pub open spec fn new_side(changes: Seq<(LineTag, Seq<char>)>) -> Seq<char> {
    side_text(changes, LineTag::Delete)
}

/// Every line of `changes` holds at least one character.
pub open spec fn lines_nonempty(changes: Seq<(LineTag, Seq<char>)>) -> bool {
    forall|i: int| 0 <= i < changes.len() ==> (#[trigger] changes[i]).1.len() > 0
}

/// On the side that leaves out `skip`, every line that another line of that
/// side follows ends in a line break.
pub open spec fn breaks_between(changes: Seq<(LineTag, Seq<char>)>, skip: LineTag) -> bool {
    forall|i: int, j: int|
        0 <= i < j < changes.len() && (#[trigger] changes[i]).0 != skip && (#[trigger] changes[j]).0 != skip
            ==> ends_with_newline(changes[i].1)
}

/// Trusted: calls `similar::TextDiff::from_lines(old, new)` (Myers' algorithm,
/// no deadline) and walks `iter_all_changes`, keeping of each change its tag
/// and its line. The changes depend on `old` and `new` alone and are named
/// `line_changes`. `from_lines` cuts each text into lines that keep their
/// line breaks, the diff operations cover both line lists in order, and each
/// change hands out the line it stands for (an equal one from `old`, equal to
/// its twin in `new`): so the equal and deleted lines, joined, give `old`,
/// and the equal and inserted lines give `new`. `tokenize_lines` ends a line
/// after each `\n`, each `\r\n` and each lone `\r`, and keeps what follows
/// the last break as a last line when it is not empty: so no line is empty,
/// and on each side every line but the last ends in `\n` or `\r`. Which
/// lines are paired up as equal is left unsaid.
#[verifier::external_body]
fn text_line_changes(old: &str, new: &str) -> (r: Vec<(LineTag, String)>)
    ensures
        tagged_views(r@) == line_changes(old@, new@),
        old_side(tagged_views(r@)) == old@,
        new_side(tagged_views(r@)) == new@,
        lines_nonempty(tagged_views(r@)),
        breaks_between(tagged_views(r@), LineTag::Insert),
        breaks_between(tagged_views(r@), LineTag::Delete),
{
    let diff = similar::TextDiff::from_lines(old, new);
    let mut out = Vec::new();
    for change in diff.iter_all_changes() {
        let tag = match change.tag() {
            similar::ChangeTag::Equal => LineTag::Equal,
            similar::ChangeTag::Delete => LineTag::Delete,
            similar::ChangeTag::Insert => LineTag::Insert,
        };
        out.push((tag, change.value().to_string()));
    }
    out
}

/// The sign written before a changed line.
pub open spec fn tag_sign(tag: LineTag) -> char {
    match tag {
        LineTag::Delete => '-',
        LineTag::Insert => '+',
        LineTag::Equal => ' ',
    }
}

/// Whether a line ends in a line break (`\r` or `\n`).
pub open spec fn ends_with_newline(line: Seq<char>) -> bool {
    line.len() > 0 && (line.last() == '\r' || line.last() == '\n')
}

/// A changed line as written: its sign, the line, and a newline when the
/// line has none.
pub open spec fn signed_line(tag: LineTag, line: Seq<char>) -> Seq<char> {
    if ends_with_newline(line) {
        seq![tag_sign(tag)] + line
    } else {
        seq![tag_sign(tag)] + line + seq!['\n']
    }
}

/// The signed lines written for `changes`, one for each.
pub open spec fn signed_lines(changes: Seq<(LineTag, Seq<char>)>) -> Seq<Seq<char>> {
    changes.map_values(|p: (LineTag, Seq<char>)| signed_line(p.0, p.1))
}

/// The lines written for the changes between two file contents.
pub open spec fn file_diff_lines(old: Seq<u8>, new: Seq<u8>) -> Seq<Seq<char>> {
    signed_lines(line_changes(utf8_lossy(old), utf8_lossy(new)))
}

/// The signed lines of `lines` whose sign is not `skip`, each without its
/// sign, joined in order.
pub open spec fn unsigned_side(lines: Seq<Seq<char>>, skip: char) -> Seq<char>
    decreases lines.len(),
{
    if lines.len() == 0 {
        Seq::empty()
    } else {
        unsigned_side(lines.drop_last(), skip) + if lines.last().len() > 0 && lines.last()[0] != skip {
            lines.last().drop_first()
        } else {
            Seq::empty()
        }
    }
}

/// `t` with a line break added at its end when it is not empty and has none.
pub open spec fn with_final_newline(t: Seq<char>) -> Seq<char> {
    if t.len() == 0 || ends_with_newline(t) { t } else { t.push('\n') }
}

/// Whether `c` is one of the three signs of a diff line.
pub open spec fn is_diff_sign(c: char) -> bool {
    c == '+' || c == '-' || c == ' '
}

/// When every line on a side ends in a line break, dropping the signs of
/// that side's signed lines gives the side's text back, and that text is
/// empty or ends in a line break.
proof fn lemma_unsigned_side_all_broken(c: Seq<(LineTag, Seq<char>)>, skip: LineTag)
    requires
        skip != LineTag::Equal,
        lines_nonempty(c),
        forall|i: int| 0 <= i < c.len() && (#[trigger] c[i]).0 != skip ==> ends_with_newline(c[i].1),
    ensures
        unsigned_side(signed_lines(c), tag_sign(skip)) == side_text(c, skip),
        side_text(c, skip).len() == 0 || ends_with_newline(side_text(c, skip)),
    decreases c.len(),
{
    if c.len() > 0 {
        let rest = c.drop_last();
        let p = c.last();
        assert(signed_lines(c).drop_last() =~= signed_lines(rest));
        assert(c[c.len() - 1] == p);
        assert forall|i: int| 0 <= i < rest.len() implies (#[trigger] rest[i]).1.len() > 0 by {
            assert(rest[i] == c[i]);
        }
        assert forall|i: int| 0 <= i < rest.len() && (#[trigger] rest[i]).0 != skip implies ends_with_newline(rest[i].1) by {
            assert(rest[i] == c[i]);
        }
        lemma_unsigned_side_all_broken(rest, skip);
        let l = signed_line(p.0, p.1);
        assert(signed_lines(c).last() == l);
        assert(l[0] == tag_sign(p.0));
        if p.0 != skip {
            assert(l.drop_first() =~= p.1);
            let t = side_text(c, skip);
            assert(t == side_text(rest, skip) + p.1);
            assert(t.last() == p.1.last());
        } else {
            assert(side_text(c, skip) =~= side_text(rest, skip));
        }
    }
}

/// Dropping the signs of one side's signed lines gives that side's text
/// back, with a line break added when its last line has none.
proof fn lemma_unsigned_side(c: Seq<(LineTag, Seq<char>)>, skip: LineTag)
    requires
        skip != LineTag::Equal,
        lines_nonempty(c),
        breaks_between(c, skip),
    ensures
        unsigned_side(signed_lines(c), tag_sign(skip)) == with_final_newline(side_text(c, skip)),
    decreases c.len(),
{
    if c.len() > 0 {
        let rest = c.drop_last();
        let p = c.last();
        assert(signed_lines(c).drop_last() =~= signed_lines(rest));
        assert(c[c.len() - 1] == p);
        assert forall|i: int| 0 <= i < rest.len() implies (#[trigger] rest[i]).1.len() > 0 by {
            assert(rest[i] == c[i]);
        }
        let l = signed_line(p.0, p.1);
        assert(signed_lines(c).last() == l);
        assert(l[0] == tag_sign(p.0));
        if p.0 != skip {
            assert forall|i: int| 0 <= i < rest.len() && (#[trigger] rest[i]).0 != skip implies ends_with_newline(rest[i].1) by {
                assert(rest[i] == c[i]);
                assert(c[c.len() - 1].0 != skip);
            }
            lemma_unsigned_side_all_broken(rest, skip);
            let t = side_text(c, skip);
            assert(t == side_text(rest, skip) + p.1);
            assert(t.last() == p.1.last());
            if ends_with_newline(p.1) {
                assert(l.drop_first() =~= p.1);
            } else {
                assert(l.drop_first() =~= p.1.push('\n'));
                assert(t.push('\n') =~= side_text(rest, skip) + p.1.push('\n'));
            }
        } else {
            assert forall|i: int, j: int|
                0 <= i < j < rest.len() && (#[trigger] rest[i]).0 != skip && (#[trigger] rest[j]).0 != skip
                    implies ends_with_newline(rest[i].1) by {
                assert(rest[i] == c[i] && rest[j] == c[j]);
            }
            lemma_unsigned_side(rest, skip);
            assert(side_text(c, skip) =~= side_text(rest, skip));
        }
    }
}

/// The signed lines of the line diff between two file contents, each
/// decoded as UTF-8 with invalid sequences replaced. Every line starts with
/// `+`, `-` or a space, and the lines rebuild both texts: without their signs,
/// the lines marked with a space or `-` join to the old text and those marked
/// with a space or `+` to the new one, each with a line break added at the
/// end when the text does not end in one.
pub fn diff_file_lines(old: &[u8], new: &[u8]) -> (lines: Vec<String>)
    ensures
        views_of(lines@) == file_diff_lines(old@, new@),
        forall|i: int| 0 <= i < lines@.len() ==> (#[trigger] lines@[i])@.len() > 0 && is_diff_sign(lines@[i]@[0]),
        unsigned_side(views_of(lines@), '+') == with_final_newline(utf8_lossy(old@)),
        unsigned_side(views_of(lines@), '-') == with_final_newline(utf8_lossy(new@)),
        old_side(line_changes(utf8_lossy(old@), utf8_lossy(new@))) == utf8_lossy(old@),
        new_side(line_changes(utf8_lossy(old@), utf8_lossy(new@))) == utf8_lossy(new@),
{
    let old_text = from_utf8_lossy(old);
    let new_text = from_utf8_lossy(new);
    let changes = text_line_changes(old_text.as_str(), new_text.as_str());
    let ghost expected = file_diff_lines(old@, new@);
    let mut lines: Vec<String> = Vec::new();
    let mut i: usize = 0;
    while i < changes.len()
        invariant
            i <= changes@.len(),
            tagged_views(changes@) == line_changes(utf8_lossy(old@), utf8_lossy(new@)),
            expected == file_diff_lines(old@, new@),
            views_of(lines@) == expected.take(i as int),
        decreases changes.len() - i,
    {
        let (tag, line) = &changes[i];
        let chars = crate::text::chars_of(line.as_str());
        let mut s = String::new();
        match tag {
            LineTag::Delete => push_char(&mut s, '-'),
            LineTag::Insert => push_char(&mut s, '+'),
            LineTag::Equal => push_char(&mut s, ' '),
        }
        push_str(&mut s, line.as_str());
        let n = chars.len();
        if !(n > 0 && (chars[n - 1] == '\r' || chars[n - 1] == '\n')) {
            push_char(&mut s, '\n');
        }
        proof {
            assert(tagged_views(changes@)[i as int] == (*tag, line@));
            assert(s@ =~= signed_line(*tag, line@));
            assert(line_changes(utf8_lossy(old@), utf8_lossy(new@))[i as int] == (*tag, line@));
            assert(expected[i as int] == signed_line(*tag, line@));
            assert(views_of(lines@.push(s)) =~= views_of(lines@).push(s@));
            assert(views_of(lines@.push(s)) =~= expected.take(i + 1));
        }
        lines.push(s);
        i = i + 1;
    }
    proof {
        let c = tagged_views(changes@);
        assert(expected.take(changes@.len() as int) =~= expected);
        lemma_unsigned_side(c, LineTag::Insert);
        lemma_unsigned_side(c, LineTag::Delete);
        assert forall|i: int| 0 <= i < lines@.len() implies (#[trigger] lines@[i])@.len() > 0 && is_diff_sign(lines@[i]@[0]) by {
            assert(views_of(lines@)[i] == lines@[i]@);
            assert(signed_lines(c)[i] == signed_line(c[i].0, c[i].1));
        }
    }
    lines
}

/// "@@ -<old_start>,<old_lines> +<new_start>,<new_lines> @@".
pub open spec fn hunk_header_text(old_start: nat, old_lines: nat, new_start: nat, new_lines: nat) -> Seq<char> {
    "@@ -"@ + decimal(old_start) + ","@ + decimal(old_lines) + " +"@ + decimal(new_start) + ","@
        + decimal(new_lines) + " @@"@
}

/// The header line of a hunk.
pub fn hunk_header(old_start: u32, old_lines: u32, new_start: u32, new_lines: u32) -> (s: String)
    ensures
        s@ == hunk_header_text(old_start as nat, old_lines as nat, new_start as nat, new_lines as nat),
{
    let mut s = String::new();
    push_str(&mut s, "@@ -");
    push_decimal(&mut s, old_start as usize);
    push_str(&mut s, ",");
    push_decimal(&mut s, old_lines as usize);
    push_str(&mut s, " +");
    push_decimal(&mut s, new_start as usize);
    push_str(&mut s, ",");
    push_decimal(&mut s, new_lines as usize);
    push_str(&mut s, " @@");
    s
}

/// The number of lines of `lines` that start with `marker`.
pub open spec fn marked_count(lines: Seq<Seq<char>>, marker: char) -> nat
    decreases lines.len(),
{
    if lines.len() == 0 {
        0
    } else {
        marked_count(lines.drop_last(), marker) + if lines.last().len() > 0 && lines.last()[0] == marker {
            1nat
        } else {
            0nat
        }
    }
}

/// Each file's counts agree with its lines: additions are the lines marked
/// `+`, deletions the lines marked `-`.
pub open spec fn counts_agree(f: GitFileChangeView) -> bool {
    f.additions == marked_count(f.diff_lines, '+') && f.deletions == marked_count(f.diff_lines, '-')
}

/// In a diff built from any walk, every file's addition and deletion counts
/// are the numbers of its lines marked `+` and `-`.
pub proof fn lemma_collected_counts_agree(records: Seq<DiffRecordView>)
    ensures
        forall|i: int| 0 <= i < collect_records(records).files.len() ==> counts_agree(
            #[trigger] collect_records(records).files[i],
        ),
    decreases records.len(),
{
    if records.len() > 0 {
        lemma_collected_counts_agree(records.drop_last());
        let d = collect_records(records.drop_last());
        let e = collect_records(records);
        match records.last() {
            DiffRecordView::File { path, kind } => {
                assert forall|i: int| 0 <= i < e.files.len() implies counts_agree(#[trigger] e.files[i]) by {
                    if i < d.files.len() {
                        assert(e.files[i] == d.files[i]);
                    }
                }
            },
            DiffRecordView::Line { origin, content } => {
                if d.files.len() > 0 {
                    let last = d.files.last();
                    let entry = line_entry(origin, content);
                    assert(last.diff_lines.push(entry).drop_last() =~= last.diff_lines);
                    assert(entry[0] == line_marker(origin));
                    assert forall|i: int| 0 <= i < e.files.len() implies counts_agree(#[trigger] e.files[i]) by {
                        if i < d.files.len() - 1 {
                            assert(e.files[i] == d.files[i]);
                        } else {
                            assert(counts_agree(d.files[d.files.len() - 1]));
                        }
                    }
                }
            },
        }
    }
}

} // verus!
