//! Configuration handed to the program at startup: the chat connection and
//! the hosting-provider credentials.

use vstd::prelude::*;

verus! {

/// Hosting-provider credentials.
#[derive(Debug, Clone)]
pub struct DathostConfig {
    pub user: String,
    pub password: String,
}

/// Chat-platform connection settings.
#[derive(Debug, Clone)]
pub struct DiscordConfig {
    pub token: String,
    pub admin_role_id: u64,
    pub application_id: u64,
    pub guild_id: u64,
}

/// The whole configuration.
#[derive(Debug, Clone)]
pub struct Config {
    pub discord: DiscordConfig,
    pub dathost: DathostConfig,
}

} // verus!
