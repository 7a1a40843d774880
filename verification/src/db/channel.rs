//! What the main partition keeps of a channel: when it was last of
//! interest, and whether its owner opted out of recording.

use vstd::prelude::*;
use vstd::string::*;
use crate::db::buffer::{after_purge, read_window};
use crate::db::StoredMessage;
use crate::time::{saturating_before, TimeSpan};

verus! {

/// A channel as the main partition knows it.
#[derive(Debug, Clone)]
pub struct Channel {
    pub channel_login: String,
    /// When a client last showed interest in the channel, in milliseconds
    /// since the Unix epoch.
    pub last_access: i64,
    /// When the channel's owner opted out of recording, if they did.
    pub ignored_at: Option<i64>,
}

/// The time for which a channel's `last_access` is left alone after it was
/// set: thirty minutes.
pub const TOUCH_GUARD_MILLIS: u64 = 30 * 60 * 1000;

/// A channel is a candidate for the listener's subscriptions if it is not
/// ignored and was accessed less than `channels_expire_after` ago.
pub open spec fn wants_join(channel: Channel, now: i64, channels_expire_after: TimeSpan) -> bool {
    channel.ignored_at is None && channel.last_access > now - channels_expire_after.millis
}

/// The logins of the channels that are candidates, in their order.
pub open spec fn logins_to_join(channels: Seq<Channel>, now: i64, channels_expire_after: TimeSpan)
    -> Seq<Seq<char>>
    decreases channels.len(),
{
    if channels.len() == 0 {
        Seq::empty()
    } else {
        let earlier = logins_to_join(channels.drop_last(), now, channels_expire_after);
        if wants_join(channels.last(), now, channels_expire_after) {
            earlier.push(channels.last().channel_login@)
        } else {
            earlier
        }
    }
}

/// The instant before which a channel's last access has to lie for a touch
/// at `now` to set it anew.
pub fn touch_guard_instant(now: i64) -> (guard: i64)
    ensures
        guard == crate::db::buffer::earliest_or(now - TOUCH_GUARD_MILLIS),
{
    saturating_before(now, TimeSpan { millis: TOUCH_GUARD_MILLIS })
}

/// What the ignored flag holds after it was set at `now`: the time where it
/// is on, nothing where it is off.
pub fn ignored_at_for(ignored: bool, now: i64) -> (ignored_at: Option<i64>)
    ensures
        ignored_at == if ignored {
            Some(now)
        } else {
            None
        },
{
    if ignored {
        Some(now)
    } else {
        None
    }
}

/// What one guarded statement makes of a channel's row: a channel that is
/// not known is added with the last access `now`; a known one has its last
/// access set to `now` where it lies before `guard`. Nothing else of the row
/// changes, so a touch never undoes an ignore.
pub open spec fn guarded_touch(row: Option<Channel>, channel_login: Seq<char>, now: i64, guard: i64)
    -> (Seq<char>, i64, Option<i64>) {
    match row {
        Some(channel) => if channel.last_access < guard {
            (channel.channel_login@, now, channel.ignored_at)
        } else {
            (channel.channel_login@, channel.last_access, channel.ignored_at)
        },
        None => (channel_login, now, None),
    }
}

/// The guarded statement with the guard of [`touch_guard_instant`] notes a
/// touch as [`touched`] says.
pub proof fn lemma_guarded_touch(row: Option<Channel>, channel_login: Seq<char>, now: i64)
    ensures
        guarded_touch(
            row,
            channel_login,
            now,
            crate::db::buffer::earliest_or(now - TOUCH_GUARD_MILLIS) as i64,
        ) == touched(row, channel_login, now),
{
}

/// The row of a channel after a client showed interest in it at `now`: a
/// channel that was not known is added, one whose `last_access` is older
/// than thirty minutes has it set to `now`, any other stays as it was.
pub open spec fn touched(row: Option<Channel>, channel_login: Seq<char>, now: i64) -> (
    Seq<char>,
    i64,
    Option<i64>,
) {
    match row {
        Some(channel) => if channel.last_access < now - TOUCH_GUARD_MILLIS {
            (channel.channel_login@, now, channel.ignored_at)
        } else {
            (channel.channel_login@, channel.last_access, channel.ignored_at)
        },
        None => (channel_login, now, None),
    }
}

/// The row of a channel after its ignored flag was set at `now`: the flag
/// holds the time where it is on and nothing where it is off; a channel that
/// was not known is added.
pub open spec fn with_ignored(row: Option<Channel>, channel_login: Seq<char>, ignored: bool, now: i64)
    -> (Seq<char>, i64, Option<i64>) {
    let ignored_at = if ignored {
        Some(now)
    } else {
        None
    };
    match row {
        Some(channel) => (channel.channel_login@, channel.last_access, ignored_at),
        None => (channel_login, now, ignored_at),
    }
}

impl Channel {
    /// The row as a triple of login, last access and ignored flag.
    pub open spec fn model(&self) -> (Seq<char>, i64, Option<i64>) {
        (self.channel_login@, self.last_access, self.ignored_at)
    }

    /// Whether the listener should be joined to the channel.
    pub fn should_join(&self, now: i64, channels_expire_after: TimeSpan) -> (join: bool)
        ensures
            join == wants_join(*self, now, channels_expire_after),
    {
        let wide: i128 = now as i128 - channels_expire_after.millis as i128;
        self.ignored_at.is_none() && self.last_access as i128 > wide
    }
}

/// Whether a channel is ignored; one that is not known is not.
pub fn is_channel_ignored(row: &Option<Channel>) -> (ignored: bool)
    ensures
        ignored == (row matches Some(channel) && channel.ignored_at is Some),
{
    match row {
        Some(channel) => channel.ignored_at.is_some(),
        None => false,
    }
}

/// Notes a client's interest in a channel, see [`touched`].
pub fn touch_or_add_channel(row: Option<Channel>, channel_login: &str, now: i64) -> (channel: Channel)
    ensures
        channel.model() == touched(row, channel_login@, now),
{
    match row {
        Some(channel) => {
            if channel.last_access < touch_guard_instant(now) {
                Channel {
                    channel_login: channel.channel_login,
                    last_access: now,
                    ignored_at: channel.ignored_at,
                }
            } else {
                channel
            }
        },
        None => Channel { channel_login: channel_login.to_owned(), last_access: now, ignored_at: None },
    }
}

/// Sets or clears a channel's ignored flag, see [`with_ignored`]. Setting
/// the flag twice to the same value leaves the channel ignored, or not, as
/// the first time did.
pub fn set_channel_ignored(row: Option<Channel>, channel_login: &str, ignored: bool, now: i64) -> (channel:
    Channel)
    ensures
        channel.model() == with_ignored(row, channel_login@, ignored, now),
        (channel.ignored_at is Some) == ignored,
{
    let ignored_at = ignored_at_for(ignored, now);
    match row {
        Some(channel) => Channel {
            channel_login: channel.channel_login,
            last_access: channel.last_access,
            ignored_at,
        },
        None => Channel { channel_login: channel_login.to_owned(), last_access: now, ignored_at },
    }
}

/// No login occurs twice among the channels: the login is the key of a
/// channel.
pub open spec fn logins_distinct(channels: Seq<Channel>) -> bool {
    forall|i: int, j: int|
        0 <= i < j < channels.len() ==> channels[i].channel_login@ != channels[j].channel_login@
}

/// The logins to join are logins of the channels, and where no login occurs
/// twice among the channels, none occurs twice among them.
pub proof fn lemma_logins_to_join_are_a_set(
    channels: Seq<Channel>,
    now: i64,
    channels_expire_after: TimeSpan,
)
    ensures
        forall|k: int|
            0 <= k < logins_to_join(channels, now, channels_expire_after).len() ==> exists|i: int|
                0 <= i < channels.len() && channels[i].channel_login@ == #[trigger] logins_to_join(
                    channels,
                    now,
                    channels_expire_after,
                )[k],
        logins_distinct(channels) ==> logins_to_join(
            channels,
            now,
            channels_expire_after,
        ).no_duplicates(),
    decreases channels.len(),
{
    let logins = logins_to_join(channels, now, channels_expire_after);
    if channels.len() > 0 {
        let front = channels.drop_last();
        let earlier = logins_to_join(front, now, channels_expire_after);
        lemma_logins_to_join_are_a_set(front, now, channels_expire_after);
        assert forall|k: int| 0 <= k < logins.len() implies exists|i: int|
            0 <= i < channels.len() && channels[i].channel_login@ == #[trigger] logins[k] by {
            if k < earlier.len() {
                assert(logins[k] == earlier[k]);
                let i = choose|i: int|
                    0 <= i < front.len() && front[i].channel_login@ == earlier[k];
                assert(channels[i].channel_login@ == logins[k]);
            } else {
                assert(channels[channels.len() - 1].channel_login@ == logins[k]);
            }
        }
        if logins_distinct(channels) {
            assert(logins_distinct(front)) by {
                assert forall|i: int, j: int| 0 <= i < j < front.len() implies front[i].channel_login@
                    != front[j].channel_login@ by {
                    assert(channels[i].channel_login@ != channels[j].channel_login@);
                }
            }
            assert forall|a: int, b: int| 0 <= a < logins.len() && 0 <= b < logins.len() && a
                != b implies logins[a] != logins[b] by {
                if a < earlier.len() && b < earlier.len() {
                    assert(earlier[a] != earlier[b]);
                } else {
                    let inner = if a < earlier.len() {
                        a
                    } else {
                        b
                    };
                    let i = choose|i: int|
                        0 <= i < front.len() && front[i].channel_login@ == earlier[inner];
                    assert(channels[i].channel_login@ != channels[channels.len()
                        - 1].channel_login@);
                }
            }
        }
    }
}

/// The logins of the channels that the listener should be joined to, in
/// the order of the channels. They form a set: where the channels are keyed
/// by their login, no login is given twice.
pub fn get_channel_logins_to_join(channels: &Vec<Channel>, now: i64, channels_expire_after: TimeSpan)
    -> (logins: Vec<String>)
    ensures
        logins.deep_view() == logins_to_join(channels@, now, channels_expire_after),
        logins_distinct(channels@) ==> logins.deep_view().no_duplicates(),
{
    proof {
        lemma_logins_to_join_are_a_set(channels@, now, channels_expire_after);
    }
    let mut logins: Vec<String> = Vec::new();
    let mut i: usize = 0;
    assert(channels@.take(0) =~= Seq::<Channel>::empty());
    assert(logins.deep_view() =~= Seq::<Seq<char>>::empty());
    while i < channels.len()
        invariant
            i <= channels.len(),
            logins.deep_view() == logins_to_join(channels@.take(i as int), now, channels_expire_after),
        decreases channels.len() - i,
    {
        proof {
            assert(channels@.take(i + 1).drop_last() =~= channels@.take(i as int));
            assert(channels@.take(i + 1).last() == channels[i as int]);
        }
        if channels[i].should_join(now, channels_expire_after) {
            let ghost earlier = logins.deep_view();
            logins.push(channels[i].channel_login.clone());
            assert(logins.deep_view() =~= earlier.push(channels[i as int].channel_login@));
        }
        i = i + 1;
    }
    assert(channels@.take(channels.len() as int) =~= channels@);
    logins
}

/// Ignore idempotence: a channel whose ignored flag was set stays ignored
/// when the flag is set again, keeps its last access, and is no candidate
/// for the listener's subscriptions however recently it was accessed; and
/// whatever a channel's buffer held, after a purge a read finds nothing.
pub proof fn lemma_ignore_is_idempotent(
    row: Option<Channel>,
    once: Channel,
    channel_login: Seq<char>,
    first: i64,
    second: i64,
    inserted: Seq<StoredMessage>,
    limit: Option<usize>,
    before: Option<i64>,
    after: Option<i64>,
    max_buffer_size: usize,
    channels_expire_after: TimeSpan,
)
    requires
        once.model() == with_ignored(row, channel_login, true, first),
    ensures
        once.ignored_at is Some,
        with_ignored(Some(once), channel_login, true, second).2 is Some,
        with_ignored(Some(once), channel_login, true, second).0 == once.channel_login@,
        with_ignored(Some(once), channel_login, true, second).1 == once.last_access,
        !wants_join(once, second, channels_expire_after),
        read_window(after_purge(inserted), limit, before, after, max_buffer_size)
            == Seq::<StoredMessage>::empty(),
{
    assert(read_window(after_purge(inserted), limit, before, after, max_buffer_size)
        =~= Seq::<StoredMessage>::empty());
}

} // verus!
