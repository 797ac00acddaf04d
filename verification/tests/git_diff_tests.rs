use docgen_rs::git_diff::{
    collect_working_diff, diff_file_lines, diff_line_text, hunk_header, status_string, DeltaKind, DiffRecord,
    GitDiffData, GitFileChange,
};

fn file(path: &str, kind: DeltaKind) -> DiffRecord {
    DiffRecord::File { path: path.to_string(), kind }
}

fn line(origin: char, content: &str) -> DiffRecord {
    DiffRecord::Line { origin, content: content.as_bytes().to_vec() }
}

#[test]
fn new_diff_is_empty_with_zero_summary() {
    let d = GitDiffData::new();
    assert!(d.is_empty());
    assert_eq!(d.total_files, 0);
    assert_eq!(d.summary(), "0 files changed, 0 insertions(+), 0 deletions(-)");
}

#[test]
fn summary_writes_the_totals() {
    let d = GitDiffData { files: vec![], total_additions: 18, total_deletions: 4, total_files: 3 };
    assert_eq!(d.summary(), "3 files changed, 18 insertions(+), 4 deletions(-)");
    let big = GitDiffData { files: vec![], total_additions: 1234567, total_deletions: 10, total_files: 100 };
    assert_eq!(big.summary(), "100 files changed, 1234567 insertions(+), 10 deletions(-)");
}

#[test]
fn not_empty_with_a_file() {
    let d = GitDiffData {
        files: vec![GitFileChange {
            file_path: "a.rs".to_string(),
            status: "added".to_string(),
            diff_lines: vec![],
            additions: 0,
            deletions: 0,
        }],
        total_additions: 0,
        total_deletions: 0,
        total_files: 1,
    };
    assert!(!d.is_empty());
}

#[test]
fn status_words() {
    assert_eq!(status_string(DeltaKind::Added), "added");
    assert_eq!(status_string(DeltaKind::Deleted), "deleted");
    assert_eq!(status_string(DeltaKind::Modified), "modified");
    assert_eq!(status_string(DeltaKind::Renamed), "renamed");
    assert_eq!(status_string(DeltaKind::Copied), "copied");
    assert_eq!(status_string(DeltaKind::Untracked), "untracked");
    assert_eq!(status_string(DeltaKind::Other), "unknown");
}

#[test]
fn line_text_marks_and_trims() {
    assert_eq!(diff_line_text('+', b"let x = 1;  \n"), "+let x = 1;");
    assert_eq!(diff_line_text('-', b"old\r\n"), "-old");
    assert_eq!(diff_line_text(' ', b"  same\t"), "   same");
    assert_eq!(diff_line_text('F', b"@@ -1 +1 @@\n"), " @@ -1 +1 @@");
}

#[test]
fn line_text_replaces_invalid_utf8() {
    assert_eq!(diff_line_text('+', &[0x61, 0xff, 0x62]), "+a\u{FFFD}b");
    assert_eq!(diff_line_text('+', "é\n".as_bytes()), "+é");
}

#[test]
fn walk_builds_files_and_totals() {
    let records = vec![
        line('+', "ignored before any file"),
        file("src/a.rs", DeltaKind::Modified),
        line(' ', "fn keep() {}\n"),
        line('+', "fn added() {}\n"),
        line('-', "fn removed() {}\n"),
        line('+', "// more\n"),
        file("b.txt", DeltaKind::Untracked),
        line('+', "hello\n"),
    ];
    let d = collect_working_diff(&records);
    assert_eq!(d.total_files, 2);
    assert_eq!(d.total_additions, 3);
    assert_eq!(d.total_deletions, 1);
    assert_eq!(d.files.len(), 2);
    assert_eq!(d.files[0].file_path, "src/a.rs");
    assert_eq!(d.files[0].status, "modified");
    assert_eq!(d.files[0].diff_lines, vec![" fn keep() {}", "+fn added() {}", "-fn removed() {}", "+// more"]);
    assert_eq!(d.files[0].additions, 2);
    assert_eq!(d.files[0].deletions, 1);
    assert_eq!(d.files[1].status, "untracked");
    assert_eq!(d.files[1].diff_lines, vec!["+hello"]);
    // the totals agree with the files
    let adds: usize = d.files.iter().map(|f| f.additions).sum();
    let dels: usize = d.files.iter().map(|f| f.deletions).sum();
    assert_eq!(adds, d.total_additions);
    assert_eq!(dels, d.total_deletions);
    assert_eq!(d.files.len(), d.total_files);
    assert_eq!(d.summary(), "2 files changed, 3 insertions(+), 1 deletions(-)");
}

#[test]
fn walk_of_nothing_is_empty() {
    let d = collect_working_diff(&vec![]);
    assert!(d.is_empty());
    assert_eq!(d.total_files, 0);
}

#[test]
fn file_diff_signs_each_line() {
    let lines = diff_file_lines(b"a\nb\nc\n", b"a\nx\nc\n");
    assert_eq!(lines, vec![" a\n", "-b\n", "+x\n", " c\n"]);
}

#[test]
fn file_diff_adds_missing_newline() {
    let lines = diff_file_lines(b"one", b"one\ntwo");
    assert_eq!(lines, vec!["-one\n", "+one\n", "+two\n"]);
    let same = diff_file_lines(b"same\n", b"same\n");
    assert_eq!(same, vec![" same\n"]);
    let none = diff_file_lines(b"", b"");
    assert!(none.is_empty());
}

#[test]
fn hunk_header_format() {
    assert_eq!(hunk_header(1, 2, 3, 4), "@@ -1,2 +3,4 @@");
    assert_eq!(hunk_header(0, 0, 10, 25), "@@ -0,0 +10,25 @@");
}

#[test]
fn counts_match_marked_lines() {
    let records = vec![
        file("x", DeltaKind::Modified),
        line('+', "a"),
        line('-', "b"),
        line('+', "c"),
        line(' ', "d"),
        line('=', "e"),
    ];
    let d = collect_working_diff(&records);
    let f = &d.files[0];
    let plus = f.diff_lines.iter().filter(|l| l.starts_with('+')).count();
    let minus = f.diff_lines.iter().filter(|l| l.starts_with('-')).count();
    assert_eq!((f.additions, f.deletions), (plus, minus));
    assert_eq!((plus, minus), (2, 1));
}

fn side(lines: &[String], skip: char) -> String {
    lines.iter().filter(|l| !l.starts_with(skip)).map(|l| l[1..].to_string()).collect()
}

#[test]
fn file_diff_lines_rebuild_both_texts() {
    let lines = diff_file_lines(b"a\nb\nc\n", b"a\nx\nc\nd\n");
    assert_eq!(side(&lines, '+'), "a\nb\nc\n");
    assert_eq!(side(&lines, '-'), "a\nx\nc\nd\n");
    let lines = diff_file_lines(b"keep\r\nold\r\n", b"new\r\nkeep\r\n");
    assert_eq!(side(&lines, '+'), "keep\r\nold\r\n");
    assert_eq!(side(&lines, '-'), "new\r\nkeep\r\n");
}

#[test]
fn file_diff_lines_rebuild_up_to_a_final_newline() {
    let lines = diff_file_lines(b"ab\ncd", b"ab\nce");
    assert!(lines.iter().all(|l| l.starts_with(['+', '-', ' '])));
    assert_eq!(side(&lines, '+'), "ab\ncd\n");
    assert_eq!(side(&lines, '-'), "ab\nce\n");
    let lines = diff_file_lines(b"one\rtwo\r", b"");
    assert_eq!(side(&lines, '+'), "one\rtwo\r");
    assert_eq!(side(&lines, '-'), "");
}
