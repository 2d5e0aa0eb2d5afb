//! Match-setup negotiation library: a turn-based protocol in which two teams
//! pick a server, veto and pick maps according to a series format, and choose
//! starting sides, before the match is persisted and provisioned.

pub mod config;
pub mod finalize;
pub mod helpers;
pub mod machine;
pub mod models;
pub mod planner;
pub mod provision;
pub mod session;
pub mod steam;
pub mod text;
pub mod types;
pub mod validator;
