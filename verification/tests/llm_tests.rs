use docgen_rs::llm::{
    git_changes_digest, markdown_from_parsed, markdown_from_reply, system_message, user_message, FormContext, GitChange,
    ReplyError,
};

fn form() -> FormContext {
    FormContext {
        code_flow: "Refactored the authentication logic for better modularity.".to_string(),
        db_changes: "Added new user_sessions table.".to_string(),
        extensibility: "Can add more auth providers easily.".to_string(),
        perf_notes: "Improved login speed, no known security issues.".to_string(),
    }
}

fn changes() -> Vec<GitChange> {
    vec![GitChange {
        filename: "src/auth.rs".to_string(),
        lines_added: 42,
        lines_removed: 10,
        functions_modified: 3,
        diff: "+fn new_login() ... -fn old_login() ...".to_string(),
        code: "pub fn new_login() { /* ... */ }".to_string(),
    }]
}

#[test]
fn digest_of_one_change() {
    assert_eq!(
        git_changes_digest(&changes()),
        "### src/auth.rs\n+42 -10 fns:3\nDiff:\n+fn new_login() ... -fn old_login() ...\nCode:\n```rust\npub fn new_login() { /* ... */ }\n```\n\n"
    );
    assert_eq!(git_changes_digest(&[]), "");
}

#[test]
fn user_message_layout() {
    let m = user_message(&form(), &changes(), "Please generate a changelog and technical summary.");
    let digest = git_changes_digest(&changes());
    let expected = format!(
        "Here are the latest Git changes:\n\n```diff\n{}\n```\n\nAnd here is the form metadata provided by the developer:\n\n```
Feature: {}\nSummary: {}\nCode Flow: {}\nDatabase Changes: {}\nExtensibility Notes: {}\nKnown Caveats: {}\n```
\nGenerate developer-facing documentation in **Markdown** that includes sections for Feature Description, Summary, Code Flow, Database Changes, Extensibility, and Caveats. Make it clean, professional, and suitable for post-processing into PDF.\n\nReturn your answer in the following JSON format:\n```json\n{{\n  \"choices\": [\n    {{\n      \"message\": {{\n        \"content\": \"<MARKDOWN_DOCUMENTATION_HERE>\"\n      }}\n    }}\n  ]\n}}\n```{}",
        digest,
        "Refactored the authentication logic for better modularity.",
        "Improved login speed, no known security issues.",
        "Refactored the authentication logic for better modularity.",
        "Added new user_sessions table.",
        "Can add more auth providers easily.",
        "Improved login speed, no known security issues.",
        "Please generate a changelog and technical summary."
    );
    assert_eq!(m, expected);
}

#[test]
fn system_message_asks_for_markdown_json() {
    assert!(system_message().starts_with("You are a documentation generator."));
    assert!(system_message().ends_with("Do not return HTML, explanations, or extra fields."));
}

#[test]
fn reply_content_is_the_documentation() {
    let reply = r##"{"id":"x","choices":[{"index":0,"message":{"role":"assistant","content":"# Title\n\nBody"}}]}"##;
    assert_eq!(markdown_from_reply(reply).unwrap(), "# Title\n\nBody");
}

#[test]
fn reply_without_content_gives_empty_documentation() {
    assert_eq!(markdown_from_reply(r#"{"choices":[]}"#).unwrap(), "");
    assert_eq!(markdown_from_reply(r#"{"error":{"message":"no key"}}"#).unwrap(), "");
    assert_eq!(markdown_from_reply(r#"{"choices":[{"message":{"content":42}}]}"#).unwrap(), "");
    assert_eq!(markdown_from_reply("[]").unwrap(), "");
}

#[test]
fn reply_that_is_not_json_is_an_error() {
    assert!(matches!(markdown_from_reply("Bad gateway"), Err(ReplyError::NotJson(_))));
    assert!(matches!(markdown_from_reply(""), Err(ReplyError::NotJson(_))));
}

#[test]
fn parsed_reply_to_documentation() {
    assert_eq!(markdown_from_parsed(Ok(Some("doc".to_string()))).unwrap(), "doc");
    assert_eq!(markdown_from_parsed(Ok(None)).unwrap(), "");
    let err = serde_json::from_str::<serde_json::Value>("{").unwrap_err();
    let line = err.line();
    match markdown_from_parsed(Err(err)) {
        Err(ReplyError::NotJson(e)) => assert_eq!(e.line(), line),
        Ok(_) => panic!("a parse error must come back as an error"),
    }
}
