//! Polls code-review repositories for open pull requests that wait on one
//! user, and turns them into the text of a desktop notification.
//!
//! `repo` reads the configured `"owner/repo"` entries, `review` decides which
//! pull requests to list and formats them, and `poll` is the loop's state
//! machine, which a driver feeds with the outcomes of its I/O.

pub mod config;
pub mod poll;
pub mod repo;
pub mod review;
pub mod text;

pub use config::{Config, ErrorKind, Failure};
pub use poll::{Action, Event, Phase, Poller};
pub use repo::{repo_refs, RepoRef};
pub use review::{collect_blocked, notification_body, summary_line, PullSummary, RepoPulls};
pub use text::decimal;
