//! The statements that the store is sent. Each carries out one rule of this
//! module; its parameters are those that the rule's functions give.

use vstd::prelude::*;
use vstd::string::*;
use crate::text::{decimal_digits, push_decimal};

verus! {

/// The parts joined by the separator: `a, b, c`.
pub open spec fn joined(parts: Seq<Seq<char>>, separator: Seq<char>) -> Seq<char>
    decreases parts.len(),
{
    if parts.len() == 0 {
        Seq::empty()
    } else if parts.len() == 1 {
        parts[0]
    } else {
        joined(parts.drop_last(), separator) + separator + parts.last()
    }
}

/// The placeholder for the parameter with the number `n`: `$n`.
pub open spec fn placeholder(n: nat) -> Seq<char> {
    "$"@ + decimal_digits(n)
}

/// The placeholders of one row of an insert: `($4, $5, $6)` for the second
/// row of three columns.
pub open spec fn row_placeholders(row: nat, num_columns: nat) -> Seq<char> {
    "("@ + joined(
        Seq::new(num_columns, |j: int| placeholder((row * num_columns + j + 1) as nat)),
        ", "@,
    ) + ")"@
}

/// The statement that inserts `num_rows` messages at once; its parameters
/// are numbered row by row from 1.
pub open spec fn batch_insert_query(num_rows: nat, num_columns: nat) -> Seq<char> {
    "INSERT INTO message(channel_login, time_received, message_source) VALUES "@ + joined(
        Seq::new(num_rows, |i: int| row_placeholders(i as nat, num_columns)),
        ", "@,
    )
}

proof fn lemma_joined_push(parts: Seq<Seq<char>>, separator: Seq<char>, part: Seq<char>)
    ensures
        joined(parts.push(part), separator) == if parts.len() == 0 {
            part
        } else {
            joined(parts, separator) + separator + part
        },
{
    assert(parts.push(part).drop_last() =~= parts);
}

/// Appends the placeholders of one row.
fn push_row_placeholders(buf: &mut String, row: usize, num_columns: usize)
    requires
        row * num_columns + num_columns <= usize::MAX,
    ensures
        final(buf)@ == old(buf)@ + row_placeholders(row as nat, num_columns as nat),
{
    let ghost start = buf@;
    let ghost columns = Seq::new(
        num_columns as nat,
        |j: int| placeholder((row * num_columns + j + 1) as nat),
    );
    buf.append("(");
    let mut j: usize = 0;
    assert(columns.take(0) =~= Seq::<Seq<char>>::empty());
    while j < num_columns
        invariant
            j <= num_columns,
            row * num_columns + num_columns <= usize::MAX,
            columns == Seq::new(
                num_columns as nat,
                |j: int| placeholder((row * num_columns + j + 1) as nat),
            ),
            buf@ == start + "("@ + joined(columns.take(j as int), ", "@),
        decreases num_columns - j,
    {
        proof {
            lemma_joined_push(columns.take(j as int), ", "@, columns[j as int]);
            assert(columns.take(j as int).push(columns[j as int]) =~= columns.take(j + 1));
        }
        if j != 0 {
            buf.append(", ");
        }
        buf.append("$");
        assert(row * num_columns <= usize::MAX) by (nonlinear_arith)
            requires
                row * num_columns + num_columns <= usize::MAX,
                num_columns >= 0,
        ;
        push_decimal(buf, (row * num_columns + j + 1) as u64);
        assert(buf@ =~= start + "("@ + joined(columns.take(j + 1), ", "@));
        j = j + 1;
    }
    assert(columns.take(num_columns as int) =~= columns);
    buf.append(")");
    assert(buf@ =~= start + row_placeholders(row as nat, num_columns as nat));
}

/// Writes the statement that inserts `num_rows` rows of `num_columns`
/// columns at once.
pub fn batch_message_insert_query(num_rows: usize, num_columns: usize) -> (query: String)
    requires
        num_rows * num_columns <= usize::MAX,
    ensures
        query@ == batch_insert_query(num_rows as nat, num_columns as nat),
{
    let mut buf = "INSERT INTO message(channel_login, time_received, message_source) VALUES ".to_owned();
    let ghost start = buf@;
    let ghost rows = Seq::new(num_rows as nat, |i: int| row_placeholders(i as nat, num_columns as nat));
    let mut i: usize = 0;
    assert(rows.take(0) =~= Seq::<Seq<char>>::empty());
    assert(buf@ =~= start + joined(rows.take(0), ", "@));
    while i < num_rows
        invariant
            i <= num_rows,
            num_rows * num_columns <= usize::MAX,
            rows == Seq::new(num_rows as nat, |i: int| row_placeholders(i as nat, num_columns as nat)),
            buf@ == start + joined(rows.take(i as int), ", "@),
        decreases num_rows - i,
    {
        proof {
            lemma_joined_push(rows.take(i as int), ", "@, rows[i as int]);
            assert(rows.take(i as int).push(rows[i as int]) =~= rows.take(i + 1));
            assert(i * num_columns + num_columns <= num_rows * num_columns) by (nonlinear_arith)
                requires
                    i < num_rows,
                    num_columns >= 0,
            ;
        }
        if i != 0 {
            buf.append(", ");
        }
        push_row_placeholders(&mut buf, i, num_columns);
        assert(buf@ =~= start + joined(rows.take(i + 1), ", "@));
        i = i + 1;
    }
    assert(rows.take(num_rows as int) =~= rows);
    buf
}

/// Reads the newest messages of channel `$1` that were received before `$2`
/// and after `$3`, where given, at most `$4` of them, newest first. What it
/// finds is read once more by [`crate::db::ChannelBuffer::get_messages`],
/// which returns the same messages.
pub const SELECT_MESSAGES: &'static str =
    "SELECT time_received, message_source
FROM message
WHERE channel_login = $1
AND ($2::timestamptz IS NULL OR time_received < $2)
AND ($3::timestamptz IS NULL OR time_received > $3)
ORDER BY time_received DESC
LIMIT $4";

/// Removes every message of channel `$1`, as
/// [`crate::db::ChannelBuffer::purge_messages`] does.
pub const PURGE_MESSAGES: &'static str = "DELETE FROM message WHERE channel_login = $1";

/// Runs a vacuum pass on channel `$1` in one statement: removes what was
/// received before the message at place `$2` from the newest, the place of
/// [`crate::db::size_trim_offset`], and what is older than `$3` seconds; see
/// [`crate::db::statement_threshold`].
pub const VACUUM_MESSAGES: &'static str =
    "DELETE FROM message
WHERE channel_login = $1
AND (
	time_received < (
		SELECT time_received
		FROM message
		WHERE channel_login = $1
		ORDER BY time_received DESC
		OFFSET $2
		LIMIT 1
	)

	OR

	time_received < now() - make_interval(secs => $3)
)";

/// The channels that hold a message, each once: those that a vacuum pass
/// walks.
pub const SELECT_CHANNELS_WITH_MESSAGES: &'static str = "SELECT DISTINCT channel_login FROM message";

/// The number of messages of a partition.
pub const COUNT_MESSAGES: &'static str = "SELECT COUNT(*) AS count FROM message";

/// The row of channel `$1`.
pub const SELECT_CHANNEL: &'static str =
    "SELECT channel_login, last_access, ignored_at FROM channel WHERE channel_login = $1";

/// The channels that are not ignored and were accessed within `$1` seconds
/// and a minute; which of them are joined is decided by
/// [`crate::db::get_channel_logins_to_join`].
pub const SELECT_CHANNELS_OF_INTEREST: &'static str =
    "SELECT channel_login, last_access, ignored_at
FROM channel
WHERE ignored_at IS NULL
  AND last_access > now() - make_interval(secs => $1) - INTERVAL '1 minute'
ORDER BY last_access DESC";

/// Notes a touch of channel `$1` at `$2` in one statement, with the guard
/// `$3` of [`crate::db::touch_guard_instant`]; see
/// [`crate::db::guarded_touch`].
pub const TOUCH_CHANNEL: &'static str =
    "INSERT INTO channel (channel_login, last_access) VALUES ($1, $2)
ON CONFLICT ON CONSTRAINT channel_pkey DO UPDATE
    SET last_access = $2
    WHERE channel.last_access < $3";

/// Sets the ignored flag of channel `$1` to `$3`, the value of
/// [`crate::db::ignored_at_for`], in one statement; a channel that is not
/// known is added with the last access `$2`. See [`crate::db::with_ignored`].
pub const SET_CHANNEL_IGNORED: &'static str =
    "INSERT INTO channel (channel_login, last_access, ignored_at) VALUES ($1, $2, $3)
ON CONFLICT ON CONSTRAINT channel_pkey DO UPDATE
    SET ignored_at = $3";

/// Adds a user authorization.
pub const INSERT_USER_AUTHORIZATION: &'static str =
    "INSERT INTO user_authorization(access_token, twitch_access_token,
twitch_refresh_token, twitch_authorization_last_validated, valid_until, user_id,
user_login, user_name, user_profile_image_url)
VALUES ($1, $2, $3, $4, $5, $6, $7, $8, $9)";

/// The user authorization under the access token `$1`; whether it is still
/// valid is decided by `UserAuthorization::is_valid_at`.
pub const SELECT_USER_AUTHORIZATION: &'static str =
    "SELECT access_token, twitch_access_token, twitch_refresh_token,
twitch_authorization_last_validated, valid_until, user_id,
user_login, user_name, user_profile_image_url
FROM user_authorization
WHERE access_token = $1";

/// Writes a user authorization over the row with its access token.
pub const UPDATE_USER_AUTHORIZATION: &'static str =
    "UPDATE user_authorization
SET twitch_access_token = $2,
twitch_refresh_token = $3,
twitch_authorization_last_validated = $4,
valid_until = $5,
user_id = $6,
user_login = $7,
user_name = $8,
user_profile_image_url = $9
WHERE access_token = $1";

/// Removes the user authorization under the access token `$1`.
pub const DELETE_USER_AUTHORIZATION: &'static str =
    "DELETE FROM user_authorization WHERE access_token = $1";

} // verus!
