//! The commands of the command line tool.

pub mod app;
pub mod app_log;
pub mod args;
pub mod command;
pub mod daemon;
pub mod development;
pub mod directory_pull;
pub mod error;
pub mod execute;
pub mod host_path;
pub mod laws;
pub mod local_tree;
pub mod output;
pub mod remote_tree;
pub mod rpc;
pub mod run;
pub mod shell;
pub mod sync;
pub mod terminal;
pub mod watch;
