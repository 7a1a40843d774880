//! The messages of one channel: what a read returns and what a vacuum pass
//! removes.

use vstd::prelude::*;
use vstd::string::*;
use crate::db::StoredMessage;
use crate::time::TimeSpan;

verus! {

/// The messages stand in the order of their times of receipt, oldest first.
pub open spec fn times_non_decreasing(rows: Seq<StoredMessage>) -> bool {
    forall|i: int, j: int|
        0 <= i <= j < rows.len() ==> rows[i].time_received <= rows[j].time_received
}

/// Whether a time of receipt lies in the window of a read; both bounds are
/// exclusive.
pub open spec fn in_window(time_received: i64, before: Option<i64>, after: Option<i64>) -> bool {
    &&& before matches Some(b) ==> time_received < b
    &&& after matches Some(a) ==> time_received > a
}

/// The messages whose time of receipt lies in the window, in their order.
pub open spec fn window_matches(rows: Seq<StoredMessage>, before: Option<i64>, after: Option<i64>)
    -> Seq<StoredMessage>
    decreases rows.len(),
{
    if rows.len() == 0 {
        Seq::empty()
    } else {
        let earlier = window_matches(rows.drop_last(), before, after);
        if in_window(rows.last().time_received, before, after) {
            earlier.push(rows.last())
        } else {
            earlier
        }
    }
}

/// The number of messages that a read returns at most: the limit asked
/// for, but never more than the buffer size.
pub open spec fn clamped_limit(limit: Option<usize>, max_buffer_size: usize) -> nat {
    match limit {
        Some(l) => if l <= max_buffer_size {
            l as nat
        } else {
            max_buffer_size as nat
        },
        None => max_buffer_size as nat,
    }
}

/// The number of messages that a read returns at most, see
/// [`clamped_limit`].
pub fn effective_limit(limit: Option<usize>, max_buffer_size: usize) -> (count: usize)
    ensures
        count == clamped_limit(limit, max_buffer_size),
{
    match limit {
        Some(l) => if l <= max_buffer_size {
            l
        } else {
            max_buffer_size
        },
        None => max_buffer_size,
    }
}

/// The last `count` messages of the list, or all of them where there are
/// fewer.
pub open spec fn newest(rows: Seq<StoredMessage>, count: nat) -> Seq<StoredMessage> {
    if rows.len() <= count {
        rows
    } else {
        rows.skip(rows.len() - count)
    }
}

/// What a read returns: of the messages in the window the newest, at most
/// as many as the clamped limit allows, oldest first.
pub open spec fn read_window(
    rows: Seq<StoredMessage>,
    limit: Option<usize>,
    before: Option<i64>,
    after: Option<i64>,
    max_buffer_size: usize,
) -> Seq<StoredMessage> {
    newest(window_matches(rows, before, after), clamped_limit(limit, max_buffer_size))
}

/// The time of receipt below which a vacuum pass removes a message: below
/// `now - messages_expire_after` a message is too old, and below the time of
/// the `max_buffer_size`-th newest message it is beyond the buffer. With a
/// buffer size of 0 nothing is kept.
pub open spec fn vacuum_threshold(
    rows: Seq<StoredMessage>,
    now: i64,
    messages_expire_after: TimeSpan,
    max_buffer_size: usize,
) -> int {
    let age = now - messages_expire_after.millis;
    if max_buffer_size == 0 {
        i64::MAX + 1
    } else if rows.len() >= max_buffer_size && rows[rows.len() - max_buffer_size].time_received
        > age {
        rows[rows.len() - max_buffer_size].time_received as int
    } else {
        age
    }
}

/// The messages with a time of receipt of at least `threshold`, in their
/// order.
pub open spec fn not_before(rows: Seq<StoredMessage>, threshold: int) -> Seq<StoredMessage>
    decreases rows.len(),
{
    if rows.len() == 0 {
        Seq::empty()
    } else {
        let earlier = not_before(rows.drop_last(), threshold);
        if rows.last().time_received >= threshold {
            earlier.push(rows.last())
        } else {
            earlier
        }
    }
}

/// What a vacuum pass leaves of a channel's messages.
pub open spec fn after_vacuum(
    rows: Seq<StoredMessage>,
    now: i64,
    messages_expire_after: TimeSpan,
    max_buffer_size: usize,
) -> Seq<StoredMessage> {
    not_before(rows, vacuum_threshold(rows, now, messages_expire_after, max_buffer_size))
}

/// The threshold itself, or the earliest instant that can be written where
/// the threshold lies before it; no message is older than either.
pub open spec fn earliest_or(threshold: int) -> int {
    if threshold < i64::MIN {
        i64::MIN as int
    } else {
        threshold
    }
}

/// What a purge leaves of a channel's messages: nothing.
pub open spec fn after_purge(rows: Seq<StoredMessage>) -> Seq<StoredMessage> {
    Seq::empty()
}

/// What a vacuum pass removes: everything, or the messages received before
/// an instant.
#[derive(Debug, Clone, Copy, PartialEq, Eq, Structural)]
pub enum VacuumCut {
    Everything,
    Before(i64),
}

impl VacuumCut {
    /// The time of receipt below which the cut removes a message.
    pub open spec fn threshold(&self) -> int {
        match *self {
            VacuumCut::Everything => i64::MAX + 1,
            VacuumCut::Before(instant) => instant as int,
        }
    }

    /// Whether the cut removes a message received at `time_received`.
    pub fn removes(&self, time_received: i64) -> (removed: bool)
        ensures
            removed == (time_received < self.threshold()),
    {
        match *self {
            VacuumCut::Everything => true,
            VacuumCut::Before(instant) => time_received < instant,
        }
    }
}

/// In a list ordered by time, the messages not before a threshold are those
/// from the first such message on.
pub proof fn lemma_not_before_is_suffix(rows: Seq<StoredMessage>, threshold: int, first: int)
    requires
        times_non_decreasing(rows),
        0 <= first <= rows.len(),
        forall|i: int| 0 <= i < first ==> rows[i].time_received < threshold,
        forall|i: int| first <= i < rows.len() ==> rows[i].time_received >= threshold,
    ensures
        not_before(rows, threshold) == rows.skip(first),
    decreases rows.len(),
{
    if rows.len() > 0 {
        let front = rows.drop_last();
        if rows.last().time_received >= threshold {
            if first == rows.len() {
                assert(rows[first - 1].time_received < threshold);
            }
            lemma_not_before_is_suffix(front, threshold, first);
            assert(front.skip(first).push(rows.last()) =~= rows.skip(first));
        } else {
            assert(first == rows.len());
            lemma_not_before_is_suffix(front, threshold, first - 1);
            assert(front.skip(first - 1) =~= rows.skip(first));
        }
    } else {
        assert(rows.skip(first) =~= Seq::<StoredMessage>::empty());
    }
}

/// The messages of one channel as the store holds them, ordered by their
/// time of receipt, oldest first; messages received at the same instant
/// stand in the order in which they were inserted.
#[derive(Debug, Clone)]
pub struct ChannelBuffer {
    pub rows: Vec<StoredMessage>,
}

fn copy_of(message: &StoredMessage) -> (copy: StoredMessage)
    ensures
        copy == *message,
{
    StoredMessage {
        time_received: message.time_received,
        message_source: message.message_source.clone(),
    }
}

impl ChannelBuffer {
    /// The invariant of a buffer: its messages are ordered by time.
    pub open spec fn wf(&self) -> bool {
        times_non_decreasing(self.rows@)
    }

    /// A buffer without messages.
    pub fn new() -> (buffer: Self)
        ensures
            buffer.wf(),
            buffer.rows@.len() == 0,
    {
        ChannelBuffer { rows: Vec::new() }
    }

    /// The buffer of the given messages, where they are ordered by time;
    /// `None` where they are not.
    pub fn from_rows(rows: Vec<StoredMessage>) -> (buffer: Option<Self>)
        ensures
            match buffer {
                Some(b) => b.wf() && b.rows == rows,
                None => !times_non_decreasing(rows@),
            },
    {
        let mut i: usize = 1;
        while i < rows.len()
            invariant
                1 <= i,
                forall|j: int|
                    1 <= j < i && j < rows.len() ==> rows[j - 1].time_received
                        <= #[trigger] rows[j].time_received,
            decreases rows.len() - i,
        {
            if rows[i - 1].time_received > rows[i].time_received {
                return None;
            }
            i = i + 1;
        }
        proof {
            lemma_adjacent_order(rows@);
        }
        Some(ChannelBuffer { rows })
    }

    /// The number of messages in the buffer.
    pub fn len(&self) -> (len: usize)
        ensures
            len == self.rows@.len(),
    {
        self.rows.len()
    }

    /// Inserts a message behind the messages that were received no later
    /// than it, and gives its place. A message that is no older than the
    /// newest one comes last: messages inserted in the order of their times
    /// stand in the order of their insertion.
    pub fn insert(&mut self, message: StoredMessage) -> (place: usize)
        requires
            old(self).wf(),
        ensures
            final(self).wf(),
            place <= old(self).rows@.len(),
            final(self).rows@ == old(self).rows@.insert(place as int, message),
            forall|i: int| 0 <= i < place ==> old(self).rows[i].time_received <= message.time_received,
            forall|i: int|
                place <= i < old(self).rows@.len() ==> old(self).rows[i].time_received
                    > message.time_received,
            old(self).rows@.len() > 0 && old(self).rows@.last().time_received
                <= message.time_received ==> place == old(self).rows@.len(),
    {
        let mut place: usize = self.rows.len();
        while place > 0 && self.rows[place - 1].time_received > message.time_received
            invariant
                place <= self.rows.len(),
                self.rows == old(self).rows,
                self.wf(),
                forall|i: int|
                    place <= i < self.rows@.len() ==> self.rows[i].time_received
                        > message.time_received,
            decreases place,
        {
            place = place - 1;
        }
        assert forall|i: int| 0 <= i < place implies self.rows[i].time_received
            <= message.time_received by {
            assert(self.rows[i].time_received <= self.rows[place - 1].time_received);
        }
        self.rows.insert(place, message);
        place
    }

    /// Reads the buffer: of the messages received before `before` and after
    /// `after`, both exclusive, the newest ones, at most `limit` and never
    /// more than `max_buffer_size`, oldest first.
    pub fn get_messages(
        &self,
        limit: Option<usize>,
        before: Option<i64>,
        after: Option<i64>,
        max_buffer_size: usize,
    ) -> (messages: Vec<StoredMessage>)
        ensures
            messages@ == read_window(self.rows@, limit, before, after, max_buffer_size),
    {
        let count = effective_limit(limit, max_buffer_size);
        let mut matching: Vec<StoredMessage> = Vec::new();
        let mut i: usize = 0;
        assert(self.rows@.take(0) =~= Seq::<StoredMessage>::empty());
        while i < self.rows.len()
            invariant
                i <= self.rows.len(),
                matching@ == window_matches(self.rows@.take(i as int), before, after),
            decreases self.rows.len() - i,
        {
            proof {
                assert(self.rows@.take(i + 1).drop_last() =~= self.rows@.take(i as int));
                assert(self.rows@.take(i + 1).last() == self.rows[i as int]);
            }
            let time_received = self.rows[i].time_received;
            let is_before = match before {
                Some(b) => time_received < b,
                None => true,
            };
            let is_after = match after {
                Some(a) => time_received > a,
                None => true,
            };
            if is_before && is_after {
                matching.push(copy_of(&self.rows[i]));
            }
            i = i + 1;
        }
        assert(self.rows@.take(self.rows.len() as int) =~= self.rows@);
        if matching.len() <= count {
            matching
        } else {
            let first = matching.len() - count;
            matching.split_off(first)
        }
    }

    /// What the next vacuum pass removes from this buffer.
    pub fn vacuum_cutoff(&self, now: i64, messages_expire_after: TimeSpan, max_buffer_size: usize)
        -> (cut: VacuumCut)
        ensures
            cut.threshold() == earliest_or(
                vacuum_threshold(self.rows@, now, messages_expire_after, max_buffer_size),
            ),
    {
        if max_buffer_size == 0 {
            return VacuumCut::Everything;
        }
        let age = crate::time::saturating_before(now, messages_expire_after);
        if self.rows.len() >= max_buffer_size {
            let boundary = self.rows[self.rows.len() - max_buffer_size].time_received;
            if boundary > age {
                return VacuumCut::Before(boundary);
            }
        }
        VacuumCut::Before(age)
    }

    /// Runs a vacuum pass on the buffer and gives the number of messages
    /// that it removed.
    pub fn vacuum(&mut self, now: i64, messages_expire_after: TimeSpan, max_buffer_size: usize)
        -> (removed: usize)
        requires
            old(self).wf(),
        ensures
            final(self).wf(),
            final(self).rows@ == after_vacuum(
                old(self).rows@,
                now,
                messages_expire_after,
                max_buffer_size,
            ),
            removed == old(self).rows@.len() - final(self).rows@.len(),
    {
        let cut = self.vacuum_cutoff(now, messages_expire_after, max_buffer_size);
        let ghost threshold = vacuum_threshold(
            self.rows@,
            now,
            messages_expire_after,
            max_buffer_size,
        );
        let mut first: usize = 0;
        while first < self.rows.len() && cut.removes(self.rows[first].time_received)
            invariant
                first <= self.rows.len(),
                self.rows == old(self).rows,
                cut.threshold() == earliest_or(threshold),
                forall|i: int| 0 <= i < first ==> self.rows[i].time_received < threshold,
            decreases self.rows.len() - first,
        {
            first = first + 1;
        }
        proof {
            assert forall|i: int| first <= i < self.rows@.len() implies self.rows[i].time_received
                >= threshold by {
                assert(self.rows[first as int].time_received <= self.rows[i].time_received);
            }
            lemma_not_before_is_suffix(self.rows@, threshold, first as int);
        }
        let kept = self.rows.split_off(first);
        self.rows = kept;
        first
    }

    /// Removes every message and gives their number.
    pub fn purge_messages(&mut self) -> (removed: usize)
        ensures
            final(self).wf(),
            final(self).rows@ == after_purge(old(self).rows@),
            removed == old(self).rows@.len(),
    {
        let removed = self.rows.len();
        self.rows.clear();
        removed
    }
}

/// A list in which each message is no older than the one before it is
/// ordered by time.
pub proof fn lemma_adjacent_order(rows: Seq<StoredMessage>)
    requires
        forall|j: int|
            1 <= j < rows.len() ==> rows[j - 1].time_received <= #[trigger] rows[j].time_received,
    ensures
        times_non_decreasing(rows),
    decreases rows.len(),
{
    if rows.len() > 1 {
        lemma_adjacent_order(rows.drop_last());
        assert forall|i: int, j: int| 0 <= i <= j < rows.len() implies rows[i].time_received
            <= rows[j].time_received by {
            if j == rows.len() - 1 && i < j {
                assert(rows.drop_last()[i].time_received <= rows.drop_last()[j - 1].time_received);
                assert(rows[j - 1].time_received <= rows[j].time_received);
            } else if j < rows.len() - 1 {
                assert(rows.drop_last()[i].time_received <= rows.drop_last()[j].time_received);
            }
        }
    }
}

/// The place that parts a list ordered by time into the messages before a
/// threshold and those not before it.
pub proof fn lemma_split_point(rows: Seq<StoredMessage>, threshold: int) -> (first: int)
    requires
        times_non_decreasing(rows),
    ensures
        0 <= first <= rows.len(),
        forall|i: int| 0 <= i < first ==> rows[i].time_received < threshold,
        forall|i: int| first <= i < rows.len() ==> rows[i].time_received >= threshold,
        not_before(rows, threshold) == rows.skip(first),
    decreases rows.len(),
{
    if rows.len() == 0 {
        lemma_not_before_is_suffix(rows, threshold, 0);
        0
    } else if rows.last().time_received < threshold {
        assert forall|i: int| 0 <= i < rows.len() implies rows[i].time_received < threshold by {
            assert(rows[i].time_received <= rows[rows.len() - 1].time_received);
        }
        lemma_not_before_is_suffix(rows, threshold, rows.len() as int);
        rows.len() as int
    } else {
        let front = rows.drop_last();
        assert forall|i: int, j: int| 0 <= i <= j < front.len() implies front[i].time_received
            <= front[j].time_received by {
            assert(rows[i].time_received <= rows[j].time_received);
        }
        let first = lemma_split_point(front, threshold);
        assert forall|i: int| 0 <= i < first implies rows[i].time_received < threshold by {
            assert(front[i].time_received < threshold);
        }
        assert forall|i: int| first <= i < rows.len() implies rows[i].time_received
            >= threshold by {
            if i < front.len() {
                assert(front[i].time_received >= threshold);
            }
        }
        lemma_not_before_is_suffix(rows, threshold, first);
        first
    }
}

/// The message just beyond the newest `max_buffer_size` is older than the
/// `max_buffer_size`-th newest, or has expired. Where it is as old as that
/// one and has not expired, a vacuum pass keeps both.
pub open spec fn boundary_is_clear(
    rows: Seq<StoredMessage>,
    now: i64,
    messages_expire_after: TimeSpan,
    max_buffer_size: usize,
) -> bool {
    max_buffer_size >= 1 && rows.len() > max_buffer_size ==> {
        let beyond = rows[rows.len() - max_buffer_size - 1].time_received;
        beyond < rows[rows.len() - max_buffer_size].time_received || beyond < now
            - messages_expire_after.millis
    }
}

/// Retention bound, by size: a vacuum pass leaves at most `max_buffer_size`
/// messages of a channel, unless the message just beyond them shares its
/// time of receipt with the oldest of them and has not expired.
pub proof fn lemma_vacuum_bounds_buffer(
    rows: Seq<StoredMessage>,
    now: i64,
    messages_expire_after: TimeSpan,
    max_buffer_size: usize,
)
    requires
        times_non_decreasing(rows),
        boundary_is_clear(rows, now, messages_expire_after, max_buffer_size),
    ensures
        after_vacuum(rows, now, messages_expire_after, max_buffer_size).len() <= max_buffer_size,
{
    let threshold = vacuum_threshold(rows, now, messages_expire_after, max_buffer_size);
    let first = lemma_split_point(rows, threshold);
    if max_buffer_size >= 1 && rows.len() > max_buffer_size {
        let boundary = rows.len() - max_buffer_size;
        assert(rows[boundary].time_received <= threshold);
        assert(now - messages_expire_after.millis <= threshold);
        assert(rows[boundary - 1].time_received < threshold);
        if first < boundary {
            assert(rows[first].time_received <= rows[boundary - 1].time_received);
        }
    }
    if max_buffer_size == 0 {
        if first < rows.len() {
            assert(rows[first].time_received >= threshold);
        }
    }
}

/// Retention bound, by age: a vacuum pass leaves no message that was
/// received more than `messages_expire_after` before the pass; and as long
/// as the next pass is no more than `period` away, none that is older than
/// `messages_expire_after` and one period.
pub proof fn lemma_vacuum_bounds_age(
    rows: Seq<StoredMessage>,
    last_vacuum: i64,
    messages_expire_after: TimeSpan,
    max_buffer_size: usize,
    period: TimeSpan,
    at: int,
    index: int,
)
    requires
        times_non_decreasing(rows),
        last_vacuum <= at <= last_vacuum + period.millis,
        0 <= index < after_vacuum(rows, last_vacuum, messages_expire_after, max_buffer_size).len(),
    ensures
        after_vacuum(
            rows,
            last_vacuum,
            messages_expire_after,
            max_buffer_size,
        )[index].time_received >= last_vacuum - messages_expire_after.millis,
        after_vacuum(
            rows,
            last_vacuum,
            messages_expire_after,
            max_buffer_size,
        )[index].time_received >= at - messages_expire_after.millis - period.millis,
{
    let threshold = vacuum_threshold(rows, last_vacuum, messages_expire_after, max_buffer_size);
    let first = lemma_split_point(rows, threshold);
    let kept = after_vacuum(rows, last_vacuum, messages_expire_after, max_buffer_size);
    assert(kept[index] == rows[first + index]);
    assert(threshold >= last_vacuum - messages_expire_after.millis);
}

/// The messages of a read are those of the list that lie in the window.
pub proof fn lemma_window_matches(
    rows: Seq<StoredMessage>,
    before: Option<i64>,
    after: Option<i64>,
)
    ensures
        forall|k: int|
            0 <= k < window_matches(rows, before, after).len() ==> in_window(
                (#[trigger] window_matches(rows, before, after)[k]).time_received,
                before,
                after,
            ) && rows.contains(window_matches(rows, before, after)[k]),
        forall|i: int|
            0 <= i < rows.len() && in_window(rows[i].time_received, before, after)
                ==> window_matches(rows, before, after).contains(#[trigger] rows[i]),
        times_non_decreasing(rows) ==> times_non_decreasing(window_matches(rows, before, after)),
    decreases rows.len(),
{
    let matches = window_matches(rows, before, after);
    if rows.len() > 0 {
        let front = rows.drop_last();
        let earlier = window_matches(front, before, after);
        lemma_window_matches(front, before, after);
        assert forall|k: int| 0 <= k < matches.len() implies in_window(
            (#[trigger] matches[k]).time_received,
            before,
            after,
        ) && rows.contains(matches[k]) by {
            if k < earlier.len() {
                assert(matches[k] == earlier[k]);
                let j = choose|j: int| 0 <= j < front.len() && front[j] == earlier[k];
                assert(rows[j] == matches[k]);
            } else {
                assert(matches[k] == rows[rows.len() - 1]);
            }
        }
        assert forall|i: int|
            0 <= i < rows.len() && in_window(
                rows[i].time_received,
                before,
                after,
            ) implies matches.contains(#[trigger] rows[i]) by {
            if i < front.len() {
                assert(front[i] == rows[i]);
                let k = choose|k: int| 0 <= k < earlier.len() && earlier[k] == front[i];
                assert(matches[k] == rows[i]);
            } else {
                assert(matches[matches.len() - 1] == rows[i]);
            }
        }
        if times_non_decreasing(rows) {
            assert(times_non_decreasing(front)) by {
                assert forall|i: int, j: int| 0 <= i <= j < front.len() implies front[i].time_received
                    <= front[j].time_received by {
                    assert(rows[i].time_received <= rows[j].time_received);
                }
            }
            assert forall|i: int, j: int| 0 <= i <= j < matches.len() implies matches[i].time_received
                <= matches[j].time_received by {
                if j < earlier.len() {
                    assert(earlier[i].time_received <= earlier[j].time_received);
                } else if i < earlier.len() {
                    let at = choose|at: int| 0 <= at < front.len() && front[at] == earlier[i];
                    assert(rows[at].time_received <= rows[rows.len() - 1].time_received);
                }
            }
        }
    }
}

/// Whatever a channel holds, a read returns no more than the limit asked
/// for and never more than the buffer size.
pub proof fn lemma_read_is_bounded(
    rows: Seq<StoredMessage>,
    limit: Option<usize>,
    before: Option<i64>,
    after: Option<i64>,
    max_buffer_size: usize,
)
    ensures
        read_window(rows, limit, before, after, max_buffer_size).len() <= clamped_limit(
            limit,
            max_buffer_size,
        ),
        clamped_limit(limit, max_buffer_size) <= max_buffer_size,
        limit matches Some(l) ==> clamped_limit(limit, max_buffer_size) <= l,
{
}

/// Monotone timestamps: what a read of a buffer returns is ordered by time
/// of receipt, oldest first.
pub proof fn lemma_read_is_ordered(
    rows: Seq<StoredMessage>,
    limit: Option<usize>,
    before: Option<i64>,
    after: Option<i64>,
    max_buffer_size: usize,
)
    requires
        times_non_decreasing(rows),
    ensures
        times_non_decreasing(read_window(rows, limit, before, after, max_buffer_size)),
{
    lemma_window_matches(rows, before, after);
    let matches = window_matches(rows, before, after);
    let read = read_window(rows, limit, before, after, max_buffer_size);
    assert forall|i: int, j: int| 0 <= i <= j < read.len() implies read[i].time_received
        <= read[j].time_received by {
        let offset = matches.len() - read.len();
        assert(read[i] == matches[offset + i]);
        assert(read[j] == matches[offset + j]);
    }
}

/// Range-query consistency: a read for the messages after the time `t` of a
/// stored message does not return that message, whatever the limit; a read
/// for the messages before `t + 1` finds it, and returns it where the limit
/// does not cut it off.
pub proof fn lemma_range_query_consistency(
    rows: Seq<StoredMessage>,
    index: int,
    limit: Option<usize>,
    max_buffer_size: usize,
)
    requires
        0 <= index < rows.len(),
        rows[index].time_received < i64::MAX,
    ensures
        !read_window(
            rows,
            limit,
            None,
            Some(rows[index].time_received),
            max_buffer_size,
        ).contains(rows[index]),
        window_matches(
            rows,
            Some((rows[index].time_received + 1) as i64),
            None,
        ).contains(rows[index]),
        window_matches(rows, Some((rows[index].time_received + 1) as i64), None).len()
            <= clamped_limit(limit, max_buffer_size) ==> read_window(
            rows,
            limit,
            Some((rows[index].time_received + 1) as i64),
            None,
            max_buffer_size,
        ).contains(rows[index]),
{
    let t = rows[index].time_received;
    lemma_window_matches(rows, None, Some(t));
    lemma_window_matches(rows, Some((t + 1) as i64), None);
    let after = window_matches(rows, None, Some(t));
    let read = read_window(rows, limit, None, Some(t), max_buffer_size);
    if read.contains(rows[index]) {
        let k = choose|k: int| 0 <= k < read.len() && read[k] == rows[index];
        let offset = after.len() - read.len();
        assert(read[k] == after[offset + k]);
        assert(in_window(after[offset + k].time_received, None, Some(t)));
    }
    assert(in_window(rows[index].time_received, Some((t + 1) as i64), None));
}

/// A list whose messages all lie in the window is its own selection.
pub proof fn lemma_window_keeps_matches(
    rows: Seq<StoredMessage>,
    before: Option<i64>,
    after: Option<i64>,
)
    requires
        forall|i: int| 0 <= i < rows.len() ==> in_window(rows[i].time_received, before, after),
    ensures
        window_matches(rows, before, after) == rows,
    decreases rows.len(),
{
    if rows.len() > 0 {
        lemma_window_keeps_matches(rows.drop_last(), before, after);
        assert(rows.drop_last().push(rows.last()) =~= rows);
    }
}

/// Reading what a read returned returns it again: a store may narrow the
/// messages down by the same window and limit before they are read here,
/// and the answer is the same.
pub proof fn lemma_read_is_idempotent(
    rows: Seq<StoredMessage>,
    limit: Option<usize>,
    before: Option<i64>,
    after: Option<i64>,
    max_buffer_size: usize,
)
    ensures
        read_window(
            read_window(rows, limit, before, after, max_buffer_size),
            limit,
            before,
            after,
            max_buffer_size,
        ) == read_window(rows, limit, before, after, max_buffer_size),
{
    let matches = window_matches(rows, before, after);
    let read = read_window(rows, limit, before, after, max_buffer_size);
    lemma_window_matches(rows, before, after);
    assert forall|i: int| 0 <= i < read.len() implies in_window(
        read[i].time_received,
        before,
        after,
    ) by {
        let offset = matches.len() - read.len();
        assert(read[i] == matches[offset + i]);
    }
    lemma_window_keeps_matches(read, before, after);
}

/// The threshold of a vacuum pass depends on the newest `max_buffer_size`
/// messages alone: a store may hand over no more than these.
pub proof fn lemma_threshold_from_newest(
    rows: Seq<StoredMessage>,
    now: i64,
    messages_expire_after: TimeSpan,
    max_buffer_size: usize,
)
    ensures
        vacuum_threshold(
            newest(rows, max_buffer_size as nat),
            now,
            messages_expire_after,
            max_buffer_size,
        ) == vacuum_threshold(rows, now, messages_expire_after, max_buffer_size),
{
}

/// The threshold of the vacuum statement that finds the boundary at place
/// `offset` among a channel's messages, counted from the newest: below the
/// time of that message where there is one, and below the age limit.
pub open spec fn statement_threshold(
    rows: Seq<StoredMessage>,
    now: i64,
    messages_expire_after: TimeSpan,
    offset: int,
) -> int {
    let age = now - messages_expire_after.millis;
    if 0 <= offset < rows.len() && rows[rows.len() - 1 - offset].time_received > age {
        rows[rows.len() - 1 - offset].time_received as int
    } else {
        age
    }
}

/// The place, counted from the newest, of the message below whose time a
/// vacuum pass trims a channel to `max_buffer_size`: `max_buffer_size - 1`.
/// With a buffer size of 0 there is no such place: nothing is kept.
pub fn size_trim_offset(max_buffer_size: usize) -> (offset: Option<i64>)
    ensures
        match offset {
            Some(place) => max_buffer_size >= 1 && (place == max_buffer_size - 1 || (place
                == i64::MAX && max_buffer_size - 1 > i64::MAX)),
            None => max_buffer_size == 0,
        },
{
    if max_buffer_size == 0 {
        None
    } else if (max_buffer_size - 1) as u128 > i64::MAX as u128 {
        Some(i64::MAX)
    } else {
        Some((max_buffer_size - 1) as i64)
    }
}

/// The vacuum statement with the place of [`size_trim_offset`] removes what
/// [`vacuum_threshold`] says.
pub proof fn lemma_threshold_by_offset(
    rows: Seq<StoredMessage>,
    now: i64,
    messages_expire_after: TimeSpan,
    max_buffer_size: usize,
)
    requires
        max_buffer_size >= 1,
    ensures
        statement_threshold(rows, now, messages_expire_after, max_buffer_size - 1)
            == vacuum_threshold(rows, now, messages_expire_after, max_buffer_size),
{
}

/// The pause between two channels of a vacuum pass, so that a pass over
/// `channels` channels takes about `vacuum_messages_every`; `None` where
/// there is no channel to vacuum.
pub fn time_between_channels(vacuum_messages_every: TimeSpan, channels: usize) -> (pause: Option<
    TimeSpan,
>)
    ensures
        match pause {
            Some(span) => channels > 0 && span.millis == vacuum_messages_every.millis / (
            channels as u64),
            None => channels == 0,
        },
{
    if channels == 0 {
        None
    } else {
        Some(TimeSpan { millis: vacuum_messages_every.millis / (channels as u64) })
    }
}

} // verus!
