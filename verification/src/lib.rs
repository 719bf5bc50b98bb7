//! A command line helper for working with Jira boards, sprints and issues:
//! the verified part of the tool. It decides what to ask and what to fetch
//! from the active context, builds the requests sent to Jira, lays out the
//! files kept in the workspace, and names branches after issues. Reading and
//! writing files, the network, the terminal and git are left to the caller.

pub mod api;
pub mod cache;
pub mod commands;
pub mod context;
pub mod git;
pub mod legacy;
pub mod paths;
pub mod pick;
pub mod provider;
pub mod style;
pub mod text;
pub mod workflow;
