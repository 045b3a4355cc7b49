//! A verified library for keeping Jira issues available offline: filtering,
//! formatting and paging logic for a local snapshot of issues.
pub mod application;
pub mod config;
pub mod domain;
pub mod jira;
pub mod paths;
pub mod persistence;
pub mod text;
