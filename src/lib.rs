//! Commit graph construction and navigation for a terminal history viewer.
//!
//! The library turns the text of a graph-annotated commit log into commit
//! records, assigns each record a rendering lane, attaches symbolic references,
//! and drives the selection state of the interactive list view.

pub mod text;
pub mod graph;
pub mod time;
pub mod commit;
pub mod log;
pub mod nav;
pub mod render;
pub mod config;
pub mod command;
pub mod filter;
pub mod store;

pub use command::{Command, parse_command};
pub use commit::{Commit, add_refs, generate_graph};
pub use config::{Colors, Config, GitConfig};
pub use filter::FilterOptions;
pub use graph::{GraphLine, GraphLineType, parse_graph_line};
pub use log::{parse_git_log, parse_git_log_at};
pub use nav::{Action, Key, NavEvent, Selection, event_for_key};
pub use render::{format_row, render_commit, render_graph_line};
pub use store::{build_commits, build_commits_at};
pub use time::{first_reading, parse_time, parse_time_at, time_from_readings};
