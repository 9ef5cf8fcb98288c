//! Library behind a small command-line helper that turns the staged changes
//! of a repository into a commit message by way of a generative-text service,
//! then lets the user accept, edit or cancel before committing.
//!
//! Everything that decides or computes lives here, verified: prompt and
//! request building, response parsing, the credential resolution order, the
//! interpretation of subprocess outcomes, and the interactive session's state
//! machine. The unverified shell around it performs the subprocess calls, the
//! HTTP request and the terminal prompts, and hands the results in as plain
//! values.

pub mod config;
pub mod gemini;
pub mod git;
pub mod json;
pub mod text;
pub mod ui;
