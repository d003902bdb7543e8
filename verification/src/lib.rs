//! The verified core of a minimal Markdown editor: input modes and
//! sequences, find, comments, Markdown marker highlighting, list
//! continuation, and command-line parsing.
pub mod pending;
pub mod interaction;
pub mod text;
pub mod editing;
pub mod cli;
pub mod preview;
pub mod find;
pub mod scan;
pub mod highlight;
pub mod inline;
pub mod comments;
pub mod status;
pub mod help;
pub mod command;
pub mod bindings;
pub mod keymap;
pub mod document;
pub mod shell;
pub mod comment_workflow;
pub mod coordinator;
