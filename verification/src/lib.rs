//! Core library of a language-tutor desktop application.
//!
//! A learner picks a language; the library resolves an isolated per-language
//! workspace directory, bootstraps its artifact files, builds the two
//! external-agent invocations (a blocking responder and a detached tracker)
//! for each chat message, reconstructs chat history from the agent's own
//! conversation logs, and defines the spaced-repetition update policy for
//! tracked vocabulary and grammar items.
//!
//! All filesystem and process side effects are performed by the surrounding
//! application; this crate computes and verifies every decision, path,
//! file content and invocation those side effects need.

pub mod artifacts;
pub mod commands;
pub mod error;
pub mod invoke;
pub mod lang_info;
pub mod model;
pub mod project_path;
pub mod sm2;
pub mod text;
pub mod transcript;
pub mod workspace;
