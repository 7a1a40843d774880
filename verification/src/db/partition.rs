//! The partitions of the store and the routing of channels to them.

use vstd::prelude::*;
use vstd::string::*;
use crate::db::ReceivedMessage;
use crate::text::{decimal_digits, push_decimal};

verus! {

/// The name of a partition in logs and metrics: `db0(main)`, `db3(shard)`,
/// or with a configured name `db3(shard, eu-west)`.
pub open spec fn partition_name(custom_name: Option<Seq<char>>, partition_id: nat) -> Seq<char> {
    "db"@ + decimal_digits(partition_id) + "("@ + (if partition_id == 0 {
        "main"@
    } else {
        "shard"@
    }) + (match custom_name {
        Some(name) => ", "@ + name,
        None => Seq::empty(),
    }) + ")"@
}

/// One partition as the storage rules see it: its name.
#[derive(Debug, Clone)]
pub struct DatabaseAccess {
    pub cached_name: String,
}

impl DatabaseAccess {
    /// The partition with the number `partition_id`; partition 0 is the main
    /// partition, every other one a shard.
    pub fn new(custom_name: Option<String>, partition_id: usize) -> (access: Self)
        ensures
            access.cached_name@ == partition_name(custom_name.deep_view(), partition_id as nat),
    {
        let mut name = "db".to_owned();
        push_decimal(&mut name, partition_id as u64);
        name.append("(");
        if partition_id == 0 {
            name.append("main");
        } else {
            name.append("shard");
        }
        match &custom_name {
            Some(custom) => {
                name.append(", ");
                name.append(custom.as_str());
            },
            None => {
                assert(name@ + Seq::<char>::empty() =~= name@);
            },
        }
        name.append(")");
        DatabaseAccess { cached_name: name }
    }

    /// The partition's name, as [`partition_name`] gives it.
    pub fn to_string(&self) -> (name: String)
        ensures
            name@ == self.cached_name@,
    {
        self.cached_name.clone()
    }
}

/// The 32-bit MurmurHash3 of a text under a seed, as `murmur3_32` of the
/// `murmur3` crate computes it over the text's bytes.
pub uninterp spec fn murmur3_32_of(text: Seq<char>, seed: u32) -> u32;

/// Hashes a text.
///
/// Trusted: calls `murmur3::murmur3_32` on a cursor over the text's bytes,
/// which cannot fail to read. The contract names the result.
#[verifier::external_body]
fn murmur3_32(text: &str, seed: u32) -> (hash: u32)
    ensures
        hash == murmur3_32_of(text@, seed),
{
    murmur3::murmur3_32(&mut std::io::Cursor::new(text), seed).unwrap()
}

/// The seed under which channel logins are hashed.
pub const PARTITION_HASH_SEED: u32 = 0;

/// The partition for a hash where there are `shards` shards: the main
/// partition where there is no shard, else shard `1 + hash mod shards`.
pub open spec fn shard_for_hash(hash: u32, shards: nat) -> nat {
    if shards == 0 {
        0
    } else {
        1 + (hash as nat) % shards
    }
}

/// The partition on which the messages of a channel live.
pub open spec fn shard_for(channel_login: Seq<char>, shards: nat) -> nat {
    shard_for_hash(murmur3_32_of(channel_login, PARTITION_HASH_SEED), shards)
}

/// The partition for a hash, see [`shard_for_hash`].
pub fn partition_for_hash(hash: u32, shards: usize) -> (partition_id: usize)
    ensures
        partition_id == shard_for_hash(hash, shards as nat),
        partition_id <= shards,
{
    if shards == 0 {
        0
    } else {
        1 + (hash as usize) % shards
    }
}

/// The partitions of the store: the main partition, numbered 0, and the
/// shards, numbered from 1.
#[derive(Debug, Clone)]
pub struct DataStorage {
    pub main_db: DatabaseAccess,
    pub shard_dbs: Vec<DatabaseAccess>,
}

/// The messages of `messages` that live on partition `partition_id`, in
/// their order.
pub open spec fn messages_on(messages: Seq<ReceivedMessage>, shards: nat, partition_id: nat)
    -> Seq<ReceivedMessage>
    decreases messages.len(),
{
    if messages.len() == 0 {
        Seq::empty()
    } else {
        let earlier = messages_on(messages.drop_last(), shards, partition_id);
        if shard_for(messages.last().channel_login@, shards) == partition_id {
            earlier.push(messages.last())
        } else {
            earlier
        }
    }
}

impl DataStorage {
    pub fn new(main_db: DatabaseAccess, shard_dbs: Vec<DatabaseAccess>) -> (storage: Self)
        ensures
            storage.main_db == main_db,
            storage.shard_dbs == shard_dbs,
    {
        DataStorage { main_db, shard_dbs }
    }

    /// The number of shards.
    pub open spec fn shards(&self) -> nat {
        self.shard_dbs@.len()
    }

    /// The partition with the given number.
    pub fn get_partition(&self, partition_id: usize) -> (access: &DatabaseAccess)
        requires
            partition_id <= self.shards(),
        ensures
            *access == if partition_id == 0 {
                self.main_db
            } else {
                self.shard_dbs[partition_id - 1]
            },
    {
        if partition_id == 0 {
            &self.main_db
        } else {
            &self.shard_dbs[partition_id - 1]
        }
    }

    /// The name of the partition with the given number.
    pub fn name_partition(&self, partition_id: usize) -> (name: &String)
        requires
            partition_id <= self.shards(),
        ensures
            *name == if partition_id == 0 {
                self.main_db.cached_name
            } else {
                self.shard_dbs[partition_id - 1].cached_name
            },
    {
        &self.get_partition(partition_id).cached_name
    }

    /// The partition on which the messages of a channel live. The same
    /// channel and the same number of shards always give the same partition.
    pub fn channel_to_partition_id(&self, channel_login: &str) -> (partition_id: usize)
        ensures
            partition_id == shard_for(channel_login@, self.shards()),
            partition_id <= self.shards(),
            self.shards() > 0 ==> partition_id >= 1,
    {
        partition_for_hash(murmur3_32(channel_login, PARTITION_HASH_SEED), self.shard_dbs.len())
    }

    /// Sorts a batch of messages by the partition they live on: the list at
    /// place `p` holds the messages for partition `p`, in the order in which
    /// they stood in the batch. Each list is written with one statement.
    pub fn group_by_partition(&self, messages: Vec<ReceivedMessage>) -> (groups: Vec<
        Vec<ReceivedMessage>,
    >)
        ensures
            groups.len() == self.shards() + 1,
            forall|p: int|
                0 <= p <= self.shards() ==> (#[trigger] groups[p])@ == messages_on(
                    messages@,
                    self.shards(),
                    p as nat,
                ),
    {
        let shards = self.shard_dbs.len();
        let mut groups: Vec<Vec<ReceivedMessage>> = Vec::new();
        groups.push(Vec::new());
        let mut p: usize = 0;
        while p < shards
            invariant
                p <= shards,
                groups.len() == p + 1,
                forall|q: int| 0 <= q <= p ==> (#[trigger] groups[q])@.len() == 0,
            decreases shards - p,
        {
            groups.push(Vec::new());
            p = p + 1;
        }
        let ghost all = messages@;
        assert(all.take(0) =~= Seq::<ReceivedMessage>::empty());
        for message in it: messages
            invariant
                it.seq() == all,
                shards == self.shards(),
                groups.len() == shards + 1,
                forall|q: int|
                    0 <= q <= shards ==> (#[trigger] groups[q])@ == messages_on(
                        all.take(it.index()),
                        shards as nat,
                        q as nat,
                    ),
        {
            let ghost done = it.index();
            let target = self.channel_to_partition_id(message.channel_login.as_str());
            proof {
                assert(all.take(done + 1).drop_last() =~= all.take(done));
                assert(all.take(done + 1).last() == message);
            }
            let ghost before = groups@;
            groups[target].push(message);
            assert forall|q: int| 0 <= q <= shards implies (#[trigger] groups[q])@ == messages_on(
                all.take(done + 1),
                shards as nat,
                q as nat,
            ) by {
                assert(before[q]@ == messages_on(all.take(done), shards as nat, q as nat));
            }
        }
        assert(all.take(all.len() as int) =~= all);
        groups
    }
}

/// Partition stability: the partition of a channel depends on the channel's
/// login and the number of shards alone, and is a shard wherever there is
/// one.
pub proof fn lemma_partition_is_stable(first: DataStorage, second: DataStorage, channel_login: Seq<char>)
    requires
        first.shards() == second.shards(),
    ensures
        shard_for(channel_login, first.shards()) == shard_for(channel_login, second.shards()),
        shard_for(channel_login, first.shards()) <= first.shards(),
        first.shards() > 0 ==> shard_for(channel_login, first.shards()) >= 1,
{
    let hash = murmur3_32_of(channel_login, PARTITION_HASH_SEED) as nat;
    if first.shards() > 0 {
        assert(hash % first.shards() < first.shards()) by (nonlinear_arith)
            requires
                first.shards() > 0,
        ;
    }
}

/// The messages stand in the order of their times of receipt.
pub open spec fn received_in_order(messages: Seq<ReceivedMessage>) -> bool {
    forall|i: int, j: int|
        0 <= i <= j < messages.len() ==> messages[i].time_received <= messages[j].time_received
}

/// Monotone timestamps on the way into storage: sorting a batch by
/// partition keeps the messages of each partition in the order in which
/// they stood in the batch, so that a batch in the order of its times gives
/// every partition its messages in the order of their times.
pub proof fn lemma_grouping_keeps_order(
    messages: Seq<ReceivedMessage>,
    shards: nat,
    partition_id: nat,
)
    ensures
        forall|k: int|
            0 <= k < messages_on(messages, shards, partition_id).len() ==> messages.contains(
                #[trigger] messages_on(messages, shards, partition_id)[k],
            ),
        received_in_order(messages) ==> received_in_order(
            messages_on(messages, shards, partition_id),
        ),
    decreases messages.len(),
{
    let group = messages_on(messages, shards, partition_id);
    if messages.len() > 0 {
        let front = messages.drop_last();
        let earlier = messages_on(front, shards, partition_id);
        lemma_grouping_keeps_order(front, shards, partition_id);
        assert forall|k: int| 0 <= k < group.len() implies messages.contains(
            #[trigger] group[k],
        ) by {
            if k < earlier.len() {
                assert(group[k] == earlier[k]);
                let j = choose|j: int| 0 <= j < front.len() && front[j] == earlier[k];
                assert(messages[j] == group[k]);
            } else {
                assert(group[k] == messages[messages.len() - 1]);
            }
        }
        if received_in_order(messages) {
            assert(received_in_order(front)) by {
                assert forall|i: int, j: int| 0 <= i <= j < front.len() implies front[i].time_received
                    <= front[j].time_received by {
                    assert(messages[i].time_received <= messages[j].time_received);
                }
            }
            assert forall|i: int, j: int| 0 <= i <= j < group.len() implies group[i].time_received
                <= group[j].time_received by {
                if j < earlier.len() {
                    assert(earlier[i].time_received <= earlier[j].time_received);
                } else if i < earlier.len() {
                    let at = choose|at: int| 0 <= at < front.len() && front[at] == earlier[i];
                    assert(messages[at].time_received <= messages[messages.len() - 1].time_received);
                }
            }
        }
    }
}

} // verus!
