//! The commands of the application and the logic behind them.
pub mod auth;
pub mod issue_filter;
pub mod issue_formatter;
pub mod presentation;
pub mod search;
pub mod show;
pub mod status;
pub mod sync;

use vstd::prelude::*;

verus! {

/// A command of the application.
pub enum Command {
    /// Work with Jira authentication.
    Auth(AuthCommand),
    /// Work with the configuration.
    Config(ConfigCommand),
    /// Synchronize issues from Jira.
    Sync { config_path: Option<std::path::PathBuf> },
    /// Show information about the local issue cache.
    Status { config_path: Option<std::path::PathBuf> },
    /// Show the cached details of an issue.
    Show { key: String, config_path: Option<std::path::PathBuf> },
    /// Search or list cached issues.
    Search {
        query: Option<String>,
        assignees: Vec<String>,
        statuses: Vec<String>,
        issue_types: Vec<String>,
        config_path: Option<std::path::PathBuf>,
    },
}

/// An authentication command.
pub enum AuthCommand {
    /// Check the configured Jira credentials.
    Check { config_path: Option<std::path::PathBuf> },
}

/// A configuration command.
pub enum ConfigCommand {
    /// Create a sample configuration at the default path.
    Init,
    /// Print a sample configuration.
    Sample,
    /// Validate a configuration file.
    Validate { config_path: Option<std::path::PathBuf> },
}

} // verus!
