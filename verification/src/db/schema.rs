//! The schema of the partitions.

use vstd::prelude::*;

verus! {

/// One step of a partition's schema.
#[derive(Debug, Clone, Copy)]
pub struct Migration {
    pub version: u32,
    pub name: &'static str,
    pub sql: &'static str,
}

/// The tables of the main partition: channels and user authorizations.
pub const MAIN_INITIAL_SCHEMA: &'static str =
    "CREATE TABLE channel (
    channel_login TEXT NOT NULL,
    last_access TIMESTAMP WITH TIME ZONE NOT NULL DEFAULT now(),
    ignored_at TIMESTAMP WITH TIME ZONE,
    CONSTRAINT channel_pkey PRIMARY KEY (channel_login)
);
CREATE TABLE user_authorization (
    access_token TEXT NOT NULL,
    twitch_access_token TEXT NOT NULL,
    twitch_refresh_token TEXT NOT NULL,
    twitch_authorization_last_validated TIMESTAMP WITH TIME ZONE NOT NULL,
    valid_until TIMESTAMP WITH TIME ZONE NOT NULL,
    user_id TEXT NOT NULL,
    user_login TEXT NOT NULL,
    user_name TEXT NOT NULL,
    user_profile_image_url TEXT NOT NULL,
    CONSTRAINT user_authorization_pkey PRIMARY KEY (access_token)
);";

/// The table of a shard partition: messages, found by channel and time.
pub const SHARD_INITIAL_SCHEMA: &'static str =
    "CREATE TABLE message (
    channel_login TEXT NOT NULL,
    time_received TIMESTAMP WITH TIME ZONE NOT NULL,
    message_source TEXT NOT NULL
);
CREATE INDEX message_channel_login_time_received_idx
    ON message (channel_login, time_received DESC);";

/// The migrations of the main partition, in the order in which they run.
pub fn migrations_main() -> (migrations: Vec<Migration>)
    ensures
        migrations.len() == 1,
        migrations[0].version == 1,
        migrations[0].name@ == "initial"@,
        migrations[0].sql@ == MAIN_INITIAL_SCHEMA@,
{
    let mut migrations = Vec::new();
    migrations.push(Migration { version: 1, name: "initial", sql: MAIN_INITIAL_SCHEMA });
    migrations
}

/// The migrations of a shard partition, in the order in which they run.
pub fn migrations_shard() -> (migrations: Vec<Migration>)
    ensures
        migrations.len() == 1,
        migrations[0].version == 1,
        migrations[0].name@ == "initial"@,
        migrations[0].sql@ == SHARD_INITIAL_SCHEMA@,
{
    let mut migrations = Vec::new();
    migrations.push(Migration { version: 1, name: "initial", sql: SHARD_INITIAL_SCHEMA });
    migrations
}

} // verus!
