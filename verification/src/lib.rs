//! Conventional-commit message composition.
//!
//! The crate turns the answers a user gives about a change (its type, scope,
//! subject, body, breaking-change note and related issues) into the text of a
//! commit message, and into the argument list handed to the commit command.
//! Every function carries a contract over the characters of the strings
//! involved.

pub mod commit_type;
pub mod message;
pub mod wrapping;
pub mod command;
pub mod prompts;
