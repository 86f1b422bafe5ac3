//! Triage of open pull requests on a package repository: which of them are
//! package changes, which are excluded, which were handled before, and what
//! a run has to do next.

pub mod cli;
pub mod config;
pub mod github;
pub mod run;
pub mod runner;
pub mod state;
pub mod text;
