//! Channel-pair store: the durable mapping from a request channel to its
//! archive channel and manager role.
//!
//! The store's contract is part of the lifecycle engine's correctness: at
//! most one configuration exists per request channel at any time, `upsert`
//! replaces-or-creates with last-write-wins semantics, and `delete` of an
//! absent key is a successful no-op. `ChannelPairStore` is the verified
//! reference store; a deployment may substitute any durable key-value store
//! whose operations meet the same contracts (an atomic replace-or-insert
//! under a unique key). `RequestChannelPair` is the persisted wire form of
//! one record, with every identifier as decimal text.

use vstd::prelude::*;

use crate::ids::dec_seq_of;
use crate::ids::id_text;
use crate::ids::parse_id_text;
use crate::ids::parseable;
use crate::ids::parses_to;

verus! {

/// One request board, with identifiers in canonical numeric form: requests
/// channel (the unique key), archive channel, and manager role.
#[derive(Clone, Copy, PartialEq, Eq, Structural, Debug)]
pub struct ChannelPairConfig {
    pub requests_channel: u64,
    pub archive_channel: u64,
    pub manager_role: u64,
}

/// Persisted form of one board configuration: the same three identifiers,
/// serialized as decimal text.
#[derive(Clone, PartialEq, Eq, Debug)]
pub struct RequestChannelPair {
    pub requests_channel: String,
    pub archive_channel: String,
    pub manager_role: String,
}

/// Serializes a board configuration into its persisted form: each identifier
/// becomes its canonical decimal text.
pub fn config_to_record(config: &ChannelPairConfig) -> (record: RequestChannelPair)
    ensures
        record.requests_channel@ == dec_seq_of(config.requests_channel as nat),
        record.archive_channel@ == dec_seq_of(config.archive_channel as nat),
        record.manager_role@ == dec_seq_of(config.manager_role as nat),
{
    RequestChannelPair {
        requests_channel: id_text(config.requests_channel),
        archive_channel: id_text(config.archive_channel),
        manager_role: id_text(config.manager_role),
    }
}

/// Reads a persisted record back into numeric form. Returns a configuration
/// exactly when all three fields are decimal numerals that fit in an
/// identifier; a record that fails to parse is reported as absent, and the
/// event that prompted the read is ignored.
pub fn record_to_config(record: &RequestChannelPair) -> (config: Option<ChannelPairConfig>)
    ensures
        match config {
            Some(c) => parses_to(record.requests_channel@, c.requests_channel)
                && parses_to(record.archive_channel@, c.archive_channel)
                && parses_to(record.manager_role@, c.manager_role),
            None => !(parseable(record.requests_channel@) && parseable(record.archive_channel@)
                && parseable(record.manager_role@)),
        },
{
    let requests_channel = match parse_id_text(record.requests_channel.as_str()) {
        Some(v) => v,
        None => { return None; },
    };
    let archive_channel = match parse_id_text(record.archive_channel.as_str()) {
        Some(v) => v,
        None => { return None; },
    };
    let manager_role = match parse_id_text(record.manager_role.as_str()) {
        Some(v) => v,
        None => { return None; },
    };
    Some(ChannelPairConfig { requests_channel, archive_channel, manager_role })
}

/// No two records share a request channel: the store's unique-key invariant.
spec fn unique_keys(s: Seq<ChannelPairConfig>) -> bool {
    forall|i: int, j: int|
        0 <= i < j < s.len() ==> #[trigger] s[i].requests_channel != #[trigger] s[j].requests_channel
}

/// The mapping a sequence of records denotes; later records win.
spec fn board_map(s: Seq<ChannelPairConfig>) -> Map<u64, ChannelPairConfig>
    decreases s.len(),
{
    if s.len() == 0 {
        Map::empty()
    } else {
        board_map(s.drop_last()).insert(s.last().requests_channel, s.last())
    }
}

proof fn lemma_board_map_dom(s: Seq<ChannelPairConfig>, k: u64)
    ensures
        board_map(s).dom().contains(k) <==> exists|i: int|
            0 <= i < s.len() && #[trigger] s[i].requests_channel == k,
    decreases s.len(),
{
    if s.len() > 0 {
        lemma_board_map_dom(s.drop_last(), k);
        if s.last().requests_channel == k {
            assert(s[s.len() - 1].requests_channel == k);
        } else {
            if board_map(s).dom().contains(k) {
                let i = choose|i: int|
                    0 <= i < s.drop_last().len() && #[trigger] s.drop_last()[i].requests_channel
                        == k;
                assert(s[i].requests_channel == k);
            }
            if exists|i: int| 0 <= i < s.len() && #[trigger] s[i].requests_channel == k {
                let i = choose|i: int| 0 <= i < s.len() && #[trigger] s[i].requests_channel == k;
                assert(s.drop_last()[i].requests_channel == k);
            }
        }
    }
}

proof fn lemma_board_map_at(s: Seq<ChannelPairConfig>, i: int)
    requires
        unique_keys(s),
        0 <= i < s.len(),
    ensures
        board_map(s).dom().contains(s[i].requests_channel),
        board_map(s)[s[i].requests_channel] == s[i],
    decreases s.len(),
{
    if i < s.len() - 1 {
        assert(unique_keys(s.drop_last()));
        lemma_board_map_at(s.drop_last(), i);
        assert(s[i].requests_channel != s.last().requests_channel);
    }
}

proof fn lemma_board_map_update(s: Seq<ChannelPairConfig>, i: int, c: ChannelPairConfig)
    requires
        unique_keys(s),
        0 <= i < s.len(),
        s[i].requests_channel == c.requests_channel,
    ensures
        board_map(s.update(i, c)) =~= board_map(s).insert(c.requests_channel, c),
        unique_keys(s.update(i, c)),
    decreases s.len(),
{
    let k = c.requests_channel;
    if i == s.len() - 1 {
        assert(s.update(i, c).drop_last() =~= s.drop_last());
    } else {
        assert(s.update(i, c).drop_last() =~= s.drop_last().update(i, c));
        assert(unique_keys(s.drop_last()));
        lemma_board_map_update(s.drop_last(), i, c);
        assert(s.last().requests_channel != k);
    }
}

proof fn lemma_board_map_remove(s: Seq<ChannelPairConfig>, i: int)
    requires
        unique_keys(s),
        0 <= i < s.len(),
    ensures
        board_map(s.remove(i)) =~= board_map(s).remove(s[i].requests_channel),
        unique_keys(s.remove(i)),
    decreases s.len(),
{
    let k = s[i].requests_channel;
    if i == s.len() - 1 {
        assert(s.remove(i) =~= s.drop_last());
        lemma_board_map_dom(s.drop_last(), k);
        assert(forall|j: int|
            0 <= j < s.drop_last().len() ==> #[trigger] s.drop_last()[j].requests_channel != k);
        assert(board_map(s.drop_last()) =~= board_map(s).remove(k));
    } else {
        assert(s.remove(i).drop_last() =~= s.drop_last().remove(i));
        assert(unique_keys(s.drop_last()));
        lemma_board_map_remove(s.drop_last(), i);
        assert(s.last().requests_channel != k);
        assert(forall|j: int|
            0 <= j < s.remove(i).len() - 1 ==> s.remove(i).drop_last()[j] == #[trigger] s.remove(
                i,
            )[j]);
    }
}

/// The verified reference store. Holds at most one configuration per request
/// channel; its view is the mapping from request channel to configuration.
pub struct ChannelPairStore {
    records: Vec<ChannelPairConfig>,
}

impl View for ChannelPairStore {
    type V = Map<u64, ChannelPairConfig>;

    closed spec fn view(&self) -> Map<u64, ChannelPairConfig> {
        board_map(self.records@)
    }
}

impl ChannelPairStore {
    /// The unique-key invariant: at most one record per request channel.
    /// Established by `new` and preserved by every operation.
    pub closed spec fn wf(&self) -> bool {
        unique_keys(self.records@)
    }

    /// An empty store: no board is configured.
    pub fn new() -> (store: Self)
        ensures
            store.wf(),
            store@ == Map::<u64, ChannelPairConfig>::empty(),
    {
        ChannelPairStore { records: Vec::new() }
    }

    /// Looks up the configuration for a request channel. Side-effect-free;
    /// returns the stored configuration exactly when one exists.
    pub fn get(&self, requests_channel: u64) -> (r: Option<ChannelPairConfig>)
        requires
            self.wf(),
        ensures
            match r {
                Some(c) => self@.dom().contains(requests_channel) && self@[requests_channel] == c
                    && c.requests_channel == requests_channel,
                None => !self@.dom().contains(requests_channel),
            },
    {
        let mut i: usize = 0;
        while i < self.records.len()
            invariant
                self.wf(),
                i <= self.records.len(),
                forall|j: int|
                    0 <= j < i ==> #[trigger] self.records@[j].requests_channel
                        != requests_channel,
            decreases self.records.len() - i,
        {
            if self.records[i].requests_channel == requests_channel {
                proof {
                    lemma_board_map_at(self.records@, i as int);
                }
                return Some(self.records[i]);
            }
            i = i + 1;
        }
        proof {
            lemma_board_map_dom(self.records@, requests_channel);
        }
        None
    }

    /// Creates or replaces the configuration for `config.requests_channel`,
    /// atomically with respect to the unique-key invariant: afterwards the
    /// store maps that key to `config` and no other key has changed
    /// (replace-or-insert, last write wins).
    pub fn upsert(&mut self, config: ChannelPairConfig)
        requires
            old(self).wf(),
        ensures
            final(self).wf(),
            final(self)@ == old(self)@.insert(config.requests_channel, config),
    {
        let mut i: usize = 0;
        while i < self.records.len()
            invariant
                self.records@ == old(self).records@,
                unique_keys(old(self).records@),
                i <= self.records.len(),
                forall|j: int|
                    0 <= j < i ==> #[trigger] old(self).records@[j].requests_channel
                        != config.requests_channel,
            decreases self.records.len() - i,
        {
            if self.records[i].requests_channel == config.requests_channel {
                self.records.set(i, config);
                proof {
                    lemma_board_map_update(old(self).records@, i as int, config);
                }
                return ;
            }
            i = i + 1;
        }
        self.records.push(config);
        proof {
            let s0 = old(self).records@;
            assert(self.records@.drop_last() =~= s0);
            assert(board_map(self.records@) =~= board_map(s0).insert(
                config.requests_channel,
                config,
            ));
            assert(forall|j: int|
                0 <= j < s0.len() ==> self.records@[j] == #[trigger] s0[j]);
        }
    }

    /// Removes the configuration for a request channel. Total: deleting an
    /// absent key succeeds and leaves the store unchanged (a no-op reported
    /// as success), never a failure.
    pub fn delete(&mut self, requests_channel: u64)
        requires
            old(self).wf(),
        ensures
            final(self).wf(),
            final(self)@ == old(self)@.remove(requests_channel),
    {
        let mut i: usize = 0;
        while i < self.records.len()
            invariant
                self.records@ == old(self).records@,
                unique_keys(old(self).records@),
                i <= self.records.len(),
                forall|j: int|
                    0 <= j < i ==> #[trigger] old(self).records@[j].requests_channel
                        != requests_channel,
            decreases self.records.len() - i,
        {
            if self.records[i].requests_channel == requests_channel {
                self.records.remove(i);
                proof {
                    lemma_board_map_remove(old(self).records@, i as int);
                }
                return ;
            }
            i = i + 1;
        }
        proof {
            let s0 = old(self).records@;
            lemma_board_map_dom(s0, requests_channel);
            assert(board_map(s0) =~= board_map(s0).remove(requests_channel));
        }
    }
}

/// An upsert followed by a get on the same key returns the just-written
/// configuration: on any board mapping, inserting a configuration under its
/// key makes that key present with exactly that value.
pub proof fn lemma_upsert_then_get(boards: Map<u64, ChannelPairConfig>, config: ChannelPairConfig)
    ensures
        boards.insert(config.requests_channel, config).dom().contains(config.requests_channel),
        boards.insert(config.requests_channel, config)[config.requests_channel] == config,
{
}

/// Two racing upserts on the same key, in whichever order the store
/// serializes them, leave exactly one binding for that key, whose value is
/// the last writer's configuration in full — one of the two writes, never a
/// merge — and touch no other key.
pub proof fn lemma_racing_upserts(
    boards: Map<u64, ChannelPairConfig>,
    first: ChannelPairConfig,
    second: ChannelPairConfig,
)
    requires
        first.requests_channel == second.requests_channel,
    ensures
        ({
            let k = first.requests_channel;
            let one_way = boards.insert(k, first).insert(k, second);
            let other_way = boards.insert(k, second).insert(k, first);
            &&& one_way[k] == second
            &&& other_way[k] == first
            &&& one_way[k] == first || one_way[k] == second
            &&& other_way[k] == first || other_way[k] == second
            &&& forall|j: u64|
                j != k ==> (#[trigger] one_way.dom().contains(j) <==> boards.dom().contains(j))
                    && (boards.dom().contains(j) ==> one_way[j] == boards[j])
            &&& forall|j: u64|
                j != k ==> (#[trigger] other_way.dom().contains(j) <==> boards.dom().contains(j))
                    && (boards.dom().contains(j) ==> other_way[j] == boards[j])
        }),
{
}

} // verus!
