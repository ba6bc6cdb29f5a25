//! Provisioning helpers for a cluster feedback-loop tool: content sniffing,
//! archive dispatch, binary location, search-path update and the decisions
//! taken around the `helm` and `kubectl` command-line tools.
pub mod args;
pub mod command;
pub mod config;
pub mod expect;
pub mod extract;
pub mod fortune;
pub mod helm;
pub mod install;
pub mod kubectl;
pub mod locate;
pub mod search_path;
pub mod sniff;
pub mod text;
