//! The storage rules: what a stored message is, which partition a channel's
//! messages live on, which messages a read returns and which a vacuum pass
//! removes, what the main partition keeps of channels and authorizations,
//! and the schema of the partitions.

pub mod authorization;
pub mod buffer;
pub mod channel;
pub mod partition;
pub mod query;
pub mod schema;

pub use self::authorization::{
    authorizations_by_token, found_authorization, lemma_authorization_round_trip,
    lemma_extend_token,
    lemma_authorizations_lookup, lemma_authorizations_remove, lemma_authorizations_update,
    tokens_distinct, updated_authorizations, AuthorizationTable,
};
pub use self::buffer::{
    after_purge, after_vacuum, boundary_is_clear, clamped_limit, earliest_or, effective_limit, in_window, lemma_adjacent_order,
    lemma_not_before_is_suffix, lemma_range_query_consistency, lemma_read_is_bounded,
    lemma_read_is_idempotent, lemma_read_is_ordered, lemma_split_point,
    lemma_threshold_from_newest, lemma_vacuum_bounds_age, lemma_vacuum_bounds_buffer,
    lemma_threshold_by_offset, lemma_window_keeps_matches, lemma_window_matches, newest,
    not_before, read_window, size_trim_offset, statement_threshold,
    time_between_channels, times_non_decreasing, vacuum_threshold,
    window_matches, ChannelBuffer, VacuumCut,
};
pub use self::channel::{
    get_channel_logins_to_join, guarded_touch, ignored_at_for, is_channel_ignored,
    lemma_guarded_touch, lemma_ignore_is_idempotent,
    lemma_logins_to_join_are_a_set, logins_distinct, logins_to_join,
    set_channel_ignored, touch_guard_instant, touch_or_add_channel, touched, wants_join,
    with_ignored, Channel,
    TOUCH_GUARD_MILLIS,
};
pub use self::partition::{
    lemma_grouping_keeps_order, lemma_partition_is_stable, messages_on, murmur3_32_of,
    partition_for_hash, partition_name, received_in_order, shard_for, shard_for_hash,
    DataStorage, DatabaseAccess, PARTITION_HASH_SEED,
};
pub use self::query::{
    batch_insert_query, batch_message_insert_query, joined, placeholder, row_placeholders,
    COUNT_MESSAGES, DELETE_USER_AUTHORIZATION, INSERT_USER_AUTHORIZATION, PURGE_MESSAGES,
    SELECT_CHANNEL, SELECT_CHANNELS_OF_INTEREST, SELECT_CHANNELS_WITH_MESSAGES, SELECT_MESSAGES,
    SELECT_USER_AUTHORIZATION, SET_CHANNEL_IGNORED, TOUCH_CHANNEL, UPDATE_USER_AUTHORIZATION,
    VACUUM_MESSAGES,
};
pub use self::schema::{
    migrations_main, migrations_shard, Migration, MAIN_INITIAL_SCHEMA, SHARD_INITIAL_SCHEMA,
};

use vstd::prelude::*;
use vstd::string::*;

verus! {

/// A message as it is kept: the time at which it was received, in
/// milliseconds since the Unix epoch, and the raw wire line.
#[derive(Debug, Clone)]
pub struct StoredMessage {
    pub time_received: i64,
    pub message_source: String,
}

/// A message on its way into storage: the channel it was sent to, the time
/// at which it was received in milliseconds since the Unix epoch, and the raw
/// wire line.
#[derive(Debug, Clone)]
pub struct ReceivedMessage {
    pub channel_login: String,
    pub time_received: i64,
    pub message_source: String,
}

} // verus!
