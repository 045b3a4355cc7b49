//! Talking to Jira: request and response shapes, and the decisions that
//! drive authentication checks and paged issue searches.
pub mod client;
pub mod dto;
