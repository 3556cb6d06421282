//! Verified core of carton, a front end that creates C projects from
//! templates and builds, tests, runs and cleans them through an external
//! build generator and build executor.
//!
//! The library decides; it performs nothing. `orchestrator` turns a command
//! into a sequence of `action`s, one at a time, each chosen from the answer
//! to the one before. `profile`, `manifest`, `scaffold`, `template` and
//! `tools` hold what the decisions are made of: the places on disk, the
//! manifest that makes a directory a project, the files of a new project and
//! their texts, and the command lines of the tools. `disk` and `laws` say,
//! over a picture of the project root, what whole commands bring about.
//! `document` is the boundary to the `toml` crate, which parses manifests.

pub mod action;
pub mod disk;
pub mod document;
pub mod error;
pub mod laws;
pub mod manifest;
pub mod orchestrator;
pub mod profile;
pub mod scaffold;
pub mod template;
pub mod tools;
