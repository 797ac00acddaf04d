use crate::text::{decimal, push_decimal, push_str};
use vstd::prelude::*;

verus! {

/// The context collected from the form.
#[derive(Clone, Debug)]
pub struct FormContext {
    pub code_flow: String,
    pub db_changes: String,
    pub extensibility: String,
    pub perf_notes: String,
}

/// The mathematical content of a [`FormContext`].
pub struct FormContextView {
    pub code_flow: Seq<char>,
    pub db_changes: Seq<char>,
    pub extensibility: Seq<char>,
    pub perf_notes: Seq<char>,
}

impl View for FormContext {
    type V = FormContextView;

    open spec fn view(&self) -> FormContextView {
        FormContextView {
            code_flow: self.code_flow@,
            db_changes: self.db_changes@,
            extensibility: self.extensibility@,
            perf_notes: self.perf_notes@,
        }
    }
}

/// A changed file as described to the model, with its diff and code.
#[derive(Clone, Debug)]
pub struct GitChange {
    pub filename: String,
    pub lines_added: usize,
    pub lines_removed: usize,
    pub functions_modified: usize,
    pub diff: String,
    /// The code that was modified.
    pub code: String,
}

/// The mathematical content of a [`GitChange`].
pub struct GitChangeView {
    pub filename: Seq<char>,
    pub lines_added: nat,
    pub lines_removed: nat,
    pub functions_modified: nat,
    pub diff: Seq<char>,
    pub code: Seq<char>,
}

impl View for GitChange {
    type V = GitChangeView;

    open spec fn view(&self) -> GitChangeView {
        GitChangeView {
            filename: self.filename@,
            lines_added: self.lines_added as nat,
            lines_removed: self.lines_removed as nat,
            functions_modified: self.functions_modified as nat,
            diff: self.diff@,
            code: self.code@,
        }
    }
}

/// The views of a sequence of changes.
pub open spec fn change_views(changes: Seq<GitChange>) -> Seq<GitChangeView> {
    changes.map_values(|c: GitChange| c@)
}

/// The section of the request that shows one changed file.
pub open spec fn change_section(c: GitChangeView) -> Seq<char> {
    "### "@ + c.filename + "\n+"@ + decimal(c.lines_added) + " -"@ + decimal(c.lines_removed) + " fns:"@
        + decimal(c.functions_modified) + "\nDiff:\n"@ + c.diff + "\nCode:\n```rust\n"@ + c.code + "\n```\n\n"@
}

/// The sections of all changed files, in order.
pub open spec fn changes_digest(changes: Seq<GitChangeView>) -> Seq<char>
    decreases changes.len(),
{
    if changes.len() == 0 {
        Seq::empty()
    } else {
        changes_digest(changes.drop_last()) + change_section(changes.last())
    }
}

/// The digest shows every change, in order: the digest of `a` followed by
/// `b` is the digest of `a` followed by the digest of `b`, and the digest of
/// one change is that change's section.
pub proof fn lemma_digest_of_each_change(a: Seq<GitChangeView>, b: Seq<GitChangeView>, c: GitChangeView)
    ensures
        changes_digest(a + b) == changes_digest(a) + changes_digest(b),
        changes_digest(seq![c]) == change_section(c),
    decreases b.len(),
{
    assert(seq![c].drop_last() =~= Seq::<GitChangeView>::empty());
    assert(seq![c].last() == c);
    assert(changes_digest(Seq::<GitChangeView>::empty()) == Seq::<char>::empty());
    assert(changes_digest(seq![c]) == changes_digest(Seq::<GitChangeView>::empty()) + change_section(c));
    assert(Seq::<char>::empty() + change_section(c) =~= change_section(c));
    if b.len() == 0 {
        assert(a + b =~= a);
        assert(changes_digest(a) + Seq::<char>::empty() =~= changes_digest(a));
    } else {
        assert((a + b).drop_last() =~= a + b.drop_last());
        assert((a + b).last() == b.last());
        lemma_digest_of_each_change(a, b.drop_last(), c);
        assert(changes_digest(a) + changes_digest(b.drop_last()) + change_section(b.last())
            =~= changes_digest(a) + (changes_digest(b.drop_last()) + change_section(b.last())));
    }
}

/// All changed files, with their counts, diffs and code, as one text.
pub fn git_changes_digest(git_changes: &[GitChange]) -> (s: String)
    ensures
        s@ == changes_digest(change_views(git_changes@)),
{
    let ghost cs = change_views(git_changes@);
    let mut s = String::new();
    let mut i: usize = 0;
    while i < git_changes.len()
        invariant
            i <= git_changes@.len(),
            cs == change_views(git_changes@),
            s@ == changes_digest(cs.take(i as int)),
        decreases git_changes.len() - i,
    {
        let c = &git_changes[i];
        let ghost before = s@;
        push_str(&mut s, "### ");
        push_str(&mut s, c.filename.as_str());
        push_str(&mut s, "\n+");
        push_decimal(&mut s, c.lines_added);
        push_str(&mut s, " -");
        push_decimal(&mut s, c.lines_removed);
        push_str(&mut s, " fns:");
        push_decimal(&mut s, c.functions_modified);
        push_str(&mut s, "\nDiff:\n");
        push_str(&mut s, c.diff.as_str());
        push_str(&mut s, "\nCode:\n```rust\n");
        push_str(&mut s, c.code.as_str());
        push_str(&mut s, "\n```\n\n");
        proof {
            assert(cs.take(i + 1).drop_last() =~= cs.take(i as int));
            assert(cs.take(i + 1).last() == c@);
            assert(s@ =~= before + change_section(c@));
        }
        i = i + 1;
    }
    proof {
        assert(cs.take(git_changes@.len() as int) =~= cs);
    }
    s
}

/// The instructions given to the model as its system message.
pub fn system_message() -> (m: &'static str)
    ensures
        m@ == system_message_text(),
{
    "You are a documentation generator. You convert git diffs and developer metadata into structured Markdown documentation suitable for developer handoff and PDF export. Always return a valid JSON object structured like OpenAI's Chat API response, with a top-level 'choices' array, each containing a 'message' object with a 'content' field that holds Markdown content only. Do not return HTML, explanations, or extra fields."
}

/// The system message.
pub open spec fn system_message_text() -> Seq<char> {
    "You are a documentation generator. You convert git diffs and developer metadata into structured Markdown documentation suitable for developer handoff and PDF export. Always return a valid JSON object structured like OpenAI's Chat API response, with a top-level 'choices' array, each containing a 'message' object with a 'content' field that holds Markdown content only. Do not return HTML, explanations, or extra fields."@
}

/// The instructions that follow the form in the user message.
pub open spec fn closing_instructions() -> Seq<char> {
    "\n```\n\nGenerate developer-facing documentation in **Markdown** that includes sections for Feature Description, Summary, Code Flow, Database Changes, Extensibility, and Caveats. Make it clean, professional, and suitable for post-processing into PDF.\n\nReturn your answer in the following JSON format:\n```json\n{\n  \"choices\": [\n    {\n      \"message\": {\n        \"content\": \"<MARKDOWN_DOCUMENTATION_HERE>\"\n      }\n    }\n  ]\n}\n```"@
}

/// The user message: the changes in a diff block, the form as metadata
/// (the code flow standing for the feature and the performance notes for the
/// summary and the caveats), the instructions, and the user's own prompt.
pub open spec fn user_message_text(form: FormContextView, digest: Seq<char>, user_prompt: Seq<char>) -> Seq<char> {
    "Here are the latest Git changes:\n\n```diff\n"@ + digest
        + "\n```\n\nAnd here is the form metadata provided by the developer:\n\n```\nFeature: "@ + form.code_flow
        + "\nSummary: "@ + form.perf_notes + "\nCode Flow: "@ + form.code_flow + "\nDatabase Changes: "@
        + form.db_changes + "\nExtensibility Notes: "@ + form.extensibility + "\nKnown Caveats: "@ + form.perf_notes
        + closing_instructions() + user_prompt
}

/// The user message sent to the model for `form`, `git_changes` and `user_prompt`.
pub fn user_message(form: &FormContext, git_changes: &[GitChange], user_prompt: &str) -> (m: String)
    ensures
        m@ == user_message_text(form@, changes_digest(change_views(git_changes@)), user_prompt@),
{
    let digest = git_changes_digest(git_changes);
    let mut m = String::new();
    push_str(&mut m, "Here are the latest Git changes:\n\n```diff\n");
    push_str(&mut m, digest.as_str());
    push_str(&mut m, "\n```\n\nAnd here is the form metadata provided by the developer:\n\n```\nFeature: ");
    push_str(&mut m, form.code_flow.as_str());
    push_str(&mut m, "\nSummary: ");
    push_str(&mut m, form.perf_notes.as_str());
    push_str(&mut m, "\nCode Flow: ");
    push_str(&mut m, form.code_flow.as_str());
    push_str(&mut m, "\nDatabase Changes: ");
    push_str(&mut m, form.db_changes.as_str());
    push_str(&mut m, "\nExtensibility Notes: ");
    push_str(&mut m, form.extensibility.as_str());
    push_str(&mut m, "\nKnown Caveats: ");
    push_str(&mut m, form.perf_notes.as_str());
    push_str(&mut m, "\n```\n\nGenerate developer-facing documentation in **Markdown** that includes sections for Feature Description, Summary, Code Flow, Database Changes, Extensibility, and Caveats. Make it clean, professional, and suitable for post-processing into PDF.\n\nReturn your answer in the following JSON format:\n```json\n{\n  \"choices\": [\n    {\n      \"message\": {\n        \"content\": \"<MARKDOWN_DOCUMENTATION_HERE>\"\n      }\n    }\n  ]\n}\n```");
    push_str(&mut m, user_prompt);
    m
}

/// The reply of the chat service as serde_json reads it: `None` when it is
/// not JSON, else the string at `choices[0].message.content`, or `None` in
/// its place when there is no string there.
pub uninterp spec fn reply_content(reply: Seq<char>) -> Option<Option<Seq<char>>>;

/// The view of an optional string.
pub open spec fn content_view(c: Option<String>) -> Option<Seq<char>> {
    match c {
        Some(s) => Some(s@),
        None => None,
    }
}

#[verifier::external_type_specification]
#[verifier::external_body]
pub struct ExJsonError(serde_json::Error);

/// Trusted: parses `reply` with `serde_json::from_str` into a
/// `serde_json::Value` and reads `v["choices"][0]["message"]["content"]`
/// with `as_str`. The parse error is handed back as it came; otherwise the
/// string found there, or `None` where the value is missing or not a string.
/// What comes out is a function of `reply` alone, named `reply_content`.
#[verifier::external_body]
fn parse_reply(reply: &str) -> (r: Result<Option<String>, serde_json::Error>)
    ensures
        r is Err <==> reply_content(reply@) is None,
        r matches Ok(c) ==> reply_content(reply@) == Some(content_view(c)),
{
    match serde_json::from_str::<serde_json::Value>(reply) {
        Ok(v) => match v["choices"][0]["message"]["content"].as_str() {
            Some(s) => Ok(Some(s.to_string())),
            None => Ok(None),
        },
        Err(e) => Err(e),
    }
}

/// Why a reply of the chat service gave no documentation.
#[derive(Debug)]
pub enum ReplyError {
    /// The reply is not JSON; serde_json's error says where it failed.
    NotJson(serde_json::Error),
}

/// The documentation a reply holds: its content, empty when there is none.
pub open spec fn reply_markdown(content: Option<Seq<char>>) -> Seq<char> {
    match content {
        Some(c) => c,
        None => Seq::empty(),
    }
}

/// The documentation of a parsed reply: the content found in it, an empty
/// text when there is none, and the parse error when it was not JSON.
pub fn markdown_from_parsed(parsed: Result<Option<String>, serde_json::Error>) -> (r: Result<String, ReplyError>)
    ensures
        parsed matches Ok(c) ==> (r matches Ok(m) && m@ == reply_markdown(content_view(c))),
        parsed matches Err(e) ==> r == Err::<String, ReplyError>(ReplyError::NotJson(e)),
{
    match parsed {
        Ok(Some(content)) => Ok(content),
        Ok(None) => Ok(String::new()),
        Err(e) => Err(ReplyError::NotJson(e)),
    }
}

/// The documentation in a reply of the chat service: the string at
/// `choices[0].message.content`, an empty text when that is missing or not a
/// string, and an error when the reply is not JSON.
pub fn markdown_from_reply(reply: &str) -> (r: Result<String, ReplyError>)
    ensures
        r is Err <==> reply_content(reply@) is None,
        reply_content(reply@) matches Some(c) ==> (r matches Ok(m) && m@ == reply_markdown(c)),
{
    markdown_from_parsed(parse_reply(reply))
}

} // verus!
