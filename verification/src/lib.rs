//! Engine of a dotfiles manager: it resolves raw, possibly tilde-prefixed or
//! relative path strings into absolute paths, decides how a link between a
//! repository file and a home-directory target is materialized and torn down,
//! tokenizes and sequences lifecycle hook commands, and looks configuration
//! entries up by name.
//!
//! Everything that touches the filesystem, spawns processes, or parses the
//! command line lives outside this crate; the functions here compute the
//! decisions those actions follow.

pub mod appconf;
pub mod cli;
pub mod config;
pub mod hooks;
pub mod lifecycle;
pub mod links;
