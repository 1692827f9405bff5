use std::collections::HashMap;

use vstd::prelude::*;

use crate::schema::itchformat::ItchMessage;

verus! {

broadcast use vstd::std_specs::hash::group_hash_axioms;

/// What a [`StatsCollector`] has counted so far.
pub struct StatsView {
    /// Unknown messages in a row at the end of the stream so far.
    pub unknown_streak: nat,
    /// The longest run of unknown messages seen.
    pub max_unknown_streak: nat,
    /// Timestamped messages whose timestamp is below that of the timestamped
    /// message before them.
    pub timestamp_regressions: nat,
    /// Unknown messages seen.
    pub unknown_count: nat,
    /// For each type byte of an unknown message, how many carried it.
    pub unknown_types: Map<u8, nat>,
    /// The timestamp of the last timestamped message.
    pub last_timestamp: Option<u64>,
    /// Messages seen.
    pub total_messages: nat,
}

impl StatsView {
    /// No counter exceeds the number of messages seen, a streak never exceeds
    /// the longest one, and each recorded unknown type was seen at least once.
    pub open spec fn consistent(self) -> bool {
        &&& self.unknown_streak <= self.max_unknown_streak
        &&& self.max_unknown_streak <= self.unknown_count
        &&& self.unknown_count <= self.total_messages
        &&& self.timestamp_regressions <= self.total_messages
        &&& forall|b: u8|
            #[trigger] self.unknown_types.contains_key(b) ==> 1 <= self.unknown_types[b]
                <= self.unknown_count
        &&& count_sum(self.unknown_types, 256) == self.unknown_count
    }
}

/// The unknown messages that the counts `m` record under the type bytes below `n`.
pub open spec fn count_sum(m: Map<u8, nat>, n: nat) -> nat
    decreases n,
{
    if n == 0 {
        0
    } else {
        count_sum(m, (n - 1) as nat) + type_count(m, (n - 1) as u8)
    }
}

/// The messages that the entries of the report `r` count, all together.
pub open spec fn report_total(r: Seq<(u8, usize)>) -> nat
    decreases r.len(),
{
    if r.len() == 0 {
        0
    } else {
        report_total(r.drop_last()) + r.last().1 as nat
    }
}

/// Counting one more message of type `t` adds one to the sum over the type
/// bytes below `n` where `t` is among them, and nothing otherwise.
proof fn lemma_count_sum_insert(m: Map<u8, nat>, t: u8, n: nat)
    requires
        n <= 256,
    ensures
        count_sum(m.insert(t, type_count(m, t) + 1), n) == count_sum(m, n) + if t < n {
            1nat
        } else {
            0nat
        },
    decreases n,
{
    if n > 0 {
        lemma_count_sum_insert(m, t, (n - 1) as nat);
        let k = (n - 1) as u8;
        assert(k as nat == n - 1);
    }
}

/// The sum over the type bytes of an empty count is zero.
proof fn lemma_count_sum_empty(n: nat)
    ensures
        count_sum(Map::empty(), n) == 0,
    decreases n,
{
    if n > 0 {
        lemma_count_sum_empty((n - 1) as nat);
    }
}

/// Adding an entry anywhere in a report adds its count to the total.
proof fn lemma_report_total_insert(r: Seq<(u8, usize)>, j: int, x: (u8, usize))
    requires
        0 <= j <= r.len(),
    ensures
        report_total(r.insert(j, x)) == report_total(r) + x.1,
    decreases r.len(),
{
    let s = r.insert(j, x);
    if j == r.len() {
        assert(s.drop_last() =~= r);
    } else {
        lemma_report_total_insert(r.drop_last(), j, x);
        assert(s.drop_last() =~= r.drop_last().insert(j, x));
        assert(s.last() == r.last());
    }
}

/// How many unknown messages of type `b` the counts `m` record.
pub open spec fn type_count(m: Map<u8, nat>, b: u8) -> nat {
    if m.contains_key(b) {
        m[b]
    } else {
        0
    }
}

/// The counters before any message.
pub open spec fn stats_initial() -> StatsView {
    StatsView {
        unknown_streak: 0,
        max_unknown_streak: 0,
        timestamp_regressions: 0,
        unknown_count: 0,
        unknown_types: Map::empty(),
        last_timestamp: None,
        total_messages: 0,
    }
}

/// The counters after `msg` follows what `v` counted.
pub open spec fn stats_step(v: StatsView, msg: ItchMessage) -> StatsView {
    let (streak, longest, unknowns, types) = match msg {
        ItchMessage::Unknown(u) => (
            v.unknown_streak + 1,
            if v.unknown_streak + 1 > v.max_unknown_streak {
                v.unknown_streak + 1
            } else {
                v.max_unknown_streak
            },
            v.unknown_count + 1,
            v.unknown_types.insert(
                u.message_type,
                type_count(v.unknown_types, u.message_type) + 1,
            ),
        ),
        _ => (0nat, v.max_unknown_streak, v.unknown_count, v.unknown_types),
    };
    let (regressions, last) = match msg.spec_timestamp() {
        Some(ts) => (
            match v.last_timestamp {
                Some(prev) => if ts < prev {
                    v.timestamp_regressions + 1
                } else {
                    v.timestamp_regressions
                },
                None => v.timestamp_regressions,
            },
            Some(ts),
        ),
        None => (v.timestamp_regressions, v.last_timestamp),
    };
    StatsView {
        unknown_streak: streak,
        max_unknown_streak: longest,
        timestamp_regressions: regressions,
        unknown_count: unknowns,
        unknown_types: types,
        last_timestamp: last,
        total_messages: v.total_messages + 1,
    }
}

/// The counters after the messages `msgs`, counted in order from the start.
pub open spec fn stats_after(msgs: Seq<ItchMessage>) -> StatsView
    decreases msgs.len(),
{
    if msgs.len() == 0 {
        stats_initial()
    } else {
        stats_step(stats_after(msgs.drop_last()), msgs.last())
    }
}

/// How many messages of `msgs` are unknown.
pub open spec fn unknowns_in(msgs: Seq<ItchMessage>) -> nat
    decreases msgs.len(),
{
    if msgs.len() == 0 {
        0
    } else {
        unknowns_in(msgs.drop_last()) + if msgs.last() is Unknown {
            1nat
        } else {
            0nat
        }
    }
}

/// How many messages of `msgs` are unknown and carry the type byte `b`.
pub open spec fn unknowns_of_type(msgs: Seq<ItchMessage>, b: u8) -> nat
    decreases msgs.len(),
{
    if msgs.len() == 0 {
        0
    } else {
        unknowns_of_type(msgs.drop_last(), b) + match msgs.last() {
            ItchMessage::Unknown(u) => if u.message_type == b {
                1nat
            } else {
                0nat
            },
            _ => 0nat,
        }
    }
}

/// How many unknown messages end `msgs`.
pub open spec fn trailing_unknowns(msgs: Seq<ItchMessage>) -> nat
    decreases msgs.len(),
{
    if msgs.len() == 0 {
        0
    } else if msgs.last() is Unknown {
        trailing_unknowns(msgs.drop_last()) + 1
    } else {
        0
    }
}

/// The longest run of unknown messages in `msgs`.
pub open spec fn longest_unknown_run(msgs: Seq<ItchMessage>) -> nat
    decreases msgs.len(),
{
    if msgs.len() == 0 {
        0
    } else {
        let before = longest_unknown_run(msgs.drop_last());
        let run = trailing_unknowns(msgs);
        if run > before {
            run
        } else {
            before
        }
    }
}

/// The timestamp of the last message of `msgs` that carries one.
pub open spec fn last_timestamp_in(msgs: Seq<ItchMessage>) -> Option<u64>
    decreases msgs.len(),
{
    if msgs.len() == 0 {
        None
    } else {
        match msgs.last().spec_timestamp() {
            Some(ts) => Some(ts),
            None => last_timestamp_in(msgs.drop_last()),
        }
    }
}

/// How many messages of `msgs` carry a timestamp below that of the last
/// message before them that carries one.
pub open spec fn regressions_in(msgs: Seq<ItchMessage>) -> nat
    decreases msgs.len(),
{
    if msgs.len() == 0 {
        0
    } else {
        regressions_in(msgs.drop_last()) + match (
            msgs.last().spec_timestamp(),
            last_timestamp_in(msgs.drop_last()),
        ) {
            (Some(ts), Some(prev)) => if ts < prev {
                1nat
            } else {
                0nat
            },
            _ => 0nat,
        }
    }
}

/// Counting a message keeps the counters consistent.
pub proof fn lemma_step_consistent(v: StatsView, msg: ItchMessage)
    requires
        v.consistent(),
    ensures
        stats_step(v, msg).consistent(),
{
    let w = stats_step(v, msg);
    if let ItchMessage::Unknown(u) = msg {
        lemma_count_sum_insert(v.unknown_types, u.message_type, 256);
    }
    assert forall|b: u8| #[trigger] w.unknown_types.contains_key(b) implies 1 <= w.unknown_types[b]
        <= w.unknown_count by {
        if v.unknown_types.contains_key(b) {
            assert(v.unknown_types[b] <= v.unknown_count);
        }
    }
}

/// What the counters hold after a stream of messages: every message counted,
/// every unknown one counted, under its type byte too, the current and the
/// longest run of unknown messages, the last timestamp, and every timestamp
/// that goes back from the one before it.
pub proof fn lemma_stats_after(msgs: Seq<ItchMessage>)
    ensures
        stats_after(msgs).consistent(),
        stats_after(msgs).total_messages == msgs.len(),
        stats_after(msgs).unknown_count == unknowns_in(msgs),
        forall|b: u8| type_count(stats_after(msgs).unknown_types, b) == #[trigger] unknowns_of_type(msgs, b),
        stats_after(msgs).unknown_streak == trailing_unknowns(msgs),
        stats_after(msgs).max_unknown_streak == longest_unknown_run(msgs),
        stats_after(msgs).last_timestamp == last_timestamp_in(msgs),
        stats_after(msgs).timestamp_regressions == regressions_in(msgs),
    decreases msgs.len(),
{
    if msgs.len() > 0 {
        let before = msgs.drop_last();
        lemma_stats_after(before);
        lemma_step_consistent(stats_after(before), msgs.last());
        assert forall|b: u8| type_count(stats_after(msgs).unknown_types, b) == #[trigger] unknowns_of_type(msgs, b) by {
            assert(type_count(stats_after(before).unknown_types, b) == unknowns_of_type(before, b));
        }
    } else {
        lemma_count_sum_empty(256);
        assert forall|b: u8| type_count(stats_after(msgs).unknown_types, b) == #[trigger] unknowns_of_type(msgs, b) by {
        }
    }
}

/// `a` comes before `b` in a report of unknown types: more messages first,
/// and among equally many, the lower type byte first.
pub open spec fn ranks_before(a: (u8, usize), b: (u8, usize)) -> bool {
    a.1 > b.1 || (a.1 == b.1 && a.0 < b.0)
}

/// `r` lists each unknown type that `m` counts, with its count, ranked by
/// [`ranks_before`].
pub open spec fn is_type_report(m: Map<u8, nat>, r: Seq<(u8, usize)>) -> bool {
    &&& forall|i: int, j: int| 0 <= i < j < r.len() ==> ranks_before(r[i], r[j])
    &&& forall|i: int|
        0 <= i < r.len() ==> m.contains_key(#[trigger] r[i].0) && r[i].1 == m[r[i].0]
    &&& forall|b: u8| #[trigger] m.contains_key(b) ==> exists|i: int| 0 <= i < r.len() && r[i].0 == b
}

/// A report of unknown types lists the most frequent type first: counts never
/// go up along the report, equal counts come in the order of their type
/// bytes, and no type byte is listed twice.
pub proof fn lemma_type_report_ranked(m: Map<u8, nat>, r: Seq<(u8, usize)>)
    requires
        is_type_report(m, r),
    ensures
        forall|i: int, j: int|
            0 <= i < j < r.len() ==> #[trigger] r[i].1 >= #[trigger] r[j].1 && (r[i].1 == r[j].1
                ==> r[i].0 < r[j].0) && r[i].0 != r[j].0,
{
    assert forall|i: int, j: int| 0 <= i < j < r.len() implies #[trigger] r[i].1 >= #[trigger] r[j].1
        && (r[i].1 == r[j].1 ==> r[i].0 < r[j].0) && r[i].0 != r[j].0 by {
        assert(ranks_before(r[i], r[j]));
        assert(m.contains_key(r[i].0) && m.contains_key(r[j].0));
    }
}

/// Integrity statistics over a stream of messages.
pub struct StatsCollector {
    unknown_streak: usize,
    max_unknown_streak: usize,
    timestamp_regressions: usize,
    unknown_count: usize,
    unknown_types: HashMap<u8, usize>,
    last_timestamp: Option<u64>,
    total_messages: usize,
}

impl View for StatsCollector {
    type V = StatsView;

    closed spec fn view(&self) -> StatsView {
        StatsView {
            unknown_streak: self.unknown_streak as nat,
            max_unknown_streak: self.max_unknown_streak as nat,
            timestamp_regressions: self.timestamp_regressions as nat,
            unknown_count: self.unknown_count as nat,
            unknown_types: self.unknown_types@.map_values(|c: usize| c as nat),
            last_timestamp: self.last_timestamp,
            total_messages: self.total_messages as nat,
        }
    }
}

impl StatsCollector {
    #[verifier::type_invariant]
    spec fn inv(self) -> bool {
        self@.consistent()
    }

    /// Creates a collector that has seen no message.
    pub fn new() -> (r: Self)
        ensures
            r@ == stats_initial(),
    {
        let types: HashMap<u8, usize> = HashMap::new();
        proof {
            lemma_count_sum_empty(256);
            assert(types@.map_values(|c: usize| c as nat) =~= Map::empty());
        }
        let r = Self {
            unknown_streak: 0,
            max_unknown_streak: 0,
            timestamp_regressions: 0,
            unknown_count: 0,
            unknown_types: types,
            last_timestamp: None,
            total_messages: 0,
        };
        r
    }

    /// Counts `msg`: unknown messages and their streaks, and timestamps that
    /// go back.
    pub fn process_message(&mut self, msg: &ItchMessage)
        requires
            old(self)@.total_messages < usize::MAX,
        ensures
            final(self)@ == stats_step(old(self)@, *msg),
            final(self)@.consistent(),
    {
        proof {
            use_type_invariant(&*self);
        }
        let ghost v = self@;
        let mut cur = StatsCollector::new();
        std::mem::swap(&mut cur, self);
        proof {
            use_type_invariant(&cur);
        }
        assert(cur@ == v);
        let StatsCollector {
            unknown_streak,
            max_unknown_streak,
            timestamp_regressions,
            unknown_count,
            unknown_types,
            last_timestamp,
            total_messages,
        } = cur;
        let mut unknown_streak = unknown_streak;
        let mut max_unknown_streak = max_unknown_streak;
        let mut timestamp_regressions = timestamp_regressions;
        let mut unknown_count = unknown_count;
        let mut unknown_types = unknown_types;
        let mut last_timestamp = last_timestamp;
        let total_messages = total_messages + 1;
        match msg {
            ItchMessage::Unknown(u) => {
                let t = u.message_type;
                let streak = unknown_streak + 1;
                unknown_count = unknown_count + 1;
                if streak > max_unknown_streak {
                    max_unknown_streak = streak;
                }
                unknown_streak = streak;
                let prev: usize = match unknown_types.get(&t) {
                    Some(c) => *c,
                    None => 0,
                };
                proof {
                    assert(prev == type_count(v.unknown_types, t));
                }
                unknown_types.insert(t, prev + 1);
                proof {
                    let counts = unknown_types@.map_values(|c: usize| c as nat);
                    assert(counts =~= v.unknown_types.insert(t, (prev + 1) as nat));
                }
            },
            _ => {
                unknown_streak = 0;
            },
        }
        // Check that timestamps do not go back.
        match msg.timestamp() {
            Some(ts) => {
                match last_timestamp {
                    Some(prev) => {
                        if ts < prev {
                            timestamp_regressions = timestamp_regressions + 1;
                        }
                    },
                    None => {},
                }
                last_timestamp = Some(ts);
            },
            None => {},
        }
        proof {
            lemma_step_consistent(v, *msg);
        }
        let next = StatsCollector {
            unknown_streak,
            max_unknown_streak,
            timestamp_regressions,
            unknown_count,
            unknown_types,
            last_timestamp,
            total_messages,
        };
        assert(next@ == stats_step(v, *msg));
        *self = next;
    }

    /// Returns how many messages have been counted.
    pub fn total_messages(&self) -> (r: usize)
        ensures
            r == self@.total_messages,
    {
        self.total_messages
    }

    /// Returns how many unknown messages in a row end the stream so far.
    pub fn unknown_streak(&self) -> (r: usize)
        ensures
            r == self@.unknown_streak,
    {
        self.unknown_streak
    }

    /// Returns the longest run of unknown messages seen.
    pub fn max_unknown_streak(&self) -> (r: usize)
        ensures
            r == self@.max_unknown_streak,
    {
        self.max_unknown_streak
    }

    /// Returns how many timestamps went back.
    pub fn timestamp_regressions(&self) -> (r: usize)
        ensures
            r == self@.timestamp_regressions,
    {
        self.timestamp_regressions
    }

    /// Returns each unknown type byte seen, with how many messages carried it,
    /// the most frequent first; equally frequent types come in the order of
    /// their bytes.
    pub fn unknown_type_counts(&self) -> (r: Vec<(u8, usize)>)
        ensures
            is_type_report(self@.unknown_types, r@),
            report_total(r@) == self@.unknown_count,
    {
        proof {
            use_type_invariant(self);
        }
        let ghost m = self@.unknown_types;
        let mut out: Vec<(u8, usize)> = Vec::new();
        let mut b: u16 = 0;
        while b < 256
            invariant
                b <= 256,
                m == self@.unknown_types,
                report_total(out@) == count_sum(m, b as nat),
                forall|i: int, j: int| 0 <= i < j < out@.len() ==> ranks_before(out@[i], out@[j]),
                forall|i: int|
                    0 <= i < out@.len() ==> (#[trigger] out@[i]).0 < b && m.contains_key(out@[i].0)
                        && out@[i].1 == m[out@[i].0],
                forall|k: u8|
                    #[trigger] m.contains_key(k) && k < b ==> exists|i: int|
                        0 <= i < out@.len() && out@[i].0 == k,
            decreases 256 - b,
        {
            let key = b as u8;
            match self.unknown_types.get(&key) {
                Some(c) => {
                    let count = *c;
                    let mut j: usize = 0;
                    while j < out.len() && out[j].1 >= count
                        invariant
                            j <= out@.len(),
                            forall|i: int| 0 <= i < j ==> (#[trigger] out@[i]).1 >= count,
                        decreases out@.len() - j,
                    {
                        j = j + 1;
                    }
                    let ghost before = out@;
                    out.insert(j, (key, count));
                    proof {
                        lemma_report_total_insert(before, j as int, (key, count));
                        assert(type_count(m, key) == count);
                        assert forall|i: int, k: int|
                            0 <= i < k < out@.len() implies ranks_before(out@[i], out@[k]) by {
                            if k == j as int {
                                assert(out@[i] == before[i]);
                            } else if i == j as int {
                                assert(out@[k] == before[k - 1]);
                                if k - 1 > j {
                                    assert(ranks_before(before[j as int], before[k - 1]));
                                }
                                assert(before[k - 1].1 < count);
                            } else if i < j {
                                if k < j {
                                    assert(out@[i] == before[i] && out@[k] == before[k]);
                                } else {
                                    assert(out@[i] == before[i] && out@[k] == before[k - 1]);
                                }
                            } else {
                                assert(out@[i] == before[i - 1] && out@[k] == before[k - 1]);
                            }
                        }
                        assert forall|i: int| 0 <= i < out@.len() implies (#[trigger] out@[i]).0
                            < b + 1 && m.contains_key(out@[i].0) && out@[i].1 == m[out@[i].0] by {
                            if i < j {
                                assert(out@[i] == before[i]);
                            } else if i > j {
                                assert(out@[i] == before[i - 1]);
                            }
                        }
                        assert forall|k: u8| #[trigger] m.contains_key(k) && k < b + 1 implies exists|
                            i: int,
                        | 0 <= i < out@.len() && out@[i].0 == k by {
                            if k == key {
                                assert(out@[j as int].0 == k);
                            } else {
                                let i0 = choose|i: int| 0 <= i < before.len() && before[i].0 == k;
                                if i0 < j {
                                    assert(out@[i0].0 == k);
                                } else {
                                    assert(out@[i0 + 1].0 == k);
                                }
                            }
                        }
                    }
                },
                None => {
                    proof {
                        assert(type_count(m, key) == 0);
                        assert forall|k: u8| #[trigger] m.contains_key(k) && k < b + 1 implies exists|
                            i: int,
                        | 0 <= i < out@.len() && out@[i].0 == k by {
                            assert(k != key);
                        }
                    }
                },
            }
            b = b + 1;
        }
        out
    }

    /// Returns how many unknown messages have been counted.
    pub fn unknown_count(&self) -> (r: usize)
        ensures
            r == self@.unknown_count,
    {
        self.unknown_count
    }
}

} // verus!
