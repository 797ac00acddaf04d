pub mod git_diff;
pub mod llm;
pub mod text;
pub mod tui;
