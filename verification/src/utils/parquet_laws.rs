use vstd::prelude::*;

use super::parquet_writer::{group_of, MessageBatchView, ParquetWriterView, GROUP_COUNT};
use crate::schema::itchformat::ItchMessage;

verus! {

/// The writer and the batches it emits after the messages `msgs`, added in
/// order.
pub open spec fn add_all(v: ParquetWriterView, msgs: Seq<ItchMessage>) -> (
    ParquetWriterView,
    Seq<MessageBatchView>,
)
    decreases msgs.len(),
{
    if msgs.len() == 0 {
        (v, seq![])
    } else {
        let (w, bs) = add_all(v, msgs.drop_last());
        let (next, b) = w.add(msgs.last());
        (
            next,
            match b {
                Some(b) => bs.push(b),
                None => bs,
            },
        )
    }
}

/// The messages of `msgs` that belong to group `g`, in order.
pub open spec fn group_messages(msgs: Seq<ItchMessage>, g: nat) -> Seq<ItchMessage>
    decreases msgs.len(),
{
    if msgs.len() == 0 {
        seq![]
    } else {
        group_messages(msgs.drop_last(), g) + if group_of(msgs.last()) == g {
            seq![msgs.last()]
        } else {
            seq![]
        }
    }
}

/// The messages of the batches of group `g` among `bs`, one batch after another.
pub open spec fn emitted_messages(bs: Seq<MessageBatchView>, g: nat) -> Seq<ItchMessage>
    decreases bs.len(),
{
    if bs.len() == 0 {
        seq![]
    } else {
        emitted_messages(bs.drop_last(), g) + if bs.last().group == g {
            bs.last().messages
        } else {
            seq![]
        }
    }
}

/// The file indices of the batches of group `g` among `bs`, in order.
pub open spec fn batch_indices(bs: Seq<MessageBatchView>, g: nat) -> Seq<nat>
    decreases bs.len(),
{
    if bs.len() == 0 {
        seq![]
    } else {
        batch_indices(bs.drop_last(), g) + if bs.last().group == g {
            seq![bs.last().file_index]
        } else {
            seq![]
        }
    }
}

/// The numbers from `start` on, `n` of them.
pub open spec fn consecutive(start: nat, n: nat) -> Seq<nat> {
    Seq::new(n, |i: int| (start + i) as nat)
}

/// No group holds as many pending messages as it should already have emitted.
pub open spec fn below_batch(v: ParquetWriterView) -> bool {
    forall|g: int|
        0 <= g < GROUP_COUNT ==> (#[trigger] v.batches[g]).len() < v.batch_size || v.batches[g].len()
            == 0
}

/// Adding a message keeps the writer well formed.
pub proof fn lemma_add_wf(v: ParquetWriterView, msg: ItchMessage)
    requires
        v.wf(),
    ensures
        v.add(msg).0.wf(),
        v.add(msg).0.batch_size == v.batch_size,
        v.add(msg).0.output_dir == v.output_dir,
{
    let w = v.add(msg).0;
    let g = group_of(msg);
    assert forall|h: int, i: int|
        0 <= h < GROUP_COUNT && 0 <= i < w.batches[h].len() implies group_of(
        #[trigger] w.batches[h][i],
    ) == h by {
        if h == g && i < v.batches[h].len() {
            assert(w.batches[h][i] == v.batches[h][i]);
        }
    }
}

/// A batch that adding a message emits holds `batch_size` messages, or one
/// where `batch_size` is 0, all of its group; and no group is left holding a
/// full batch.
pub proof fn lemma_add_batch_size(v: ParquetWriterView, msg: ItchMessage)
    requires
        v.wf(),
        below_batch(v),
    ensures
        below_batch(v.add(msg).0),
        v.add(msg).1 matches Some(b) ==> b.messages.len() == (if v.batch_size == 0 {
            1
        } else {
            v.batch_size
        }) && forall|i: int| 0 <= i < b.messages.len() ==> group_of(#[trigger] b.messages[i]) == b.group,
{
    let g = group_of(msg);
    let w = v.add(msg).0;
    assert forall|h: int| 0 <= h < GROUP_COUNT implies (#[trigger] w.batches[h]).len() < w.batch_size
        || w.batches[h].len() == 0 by {}
    if let Some(b) = v.add(msg).1 {
        assert forall|i: int| 0 <= i < b.messages.len() implies group_of(#[trigger] b.messages[i])
            == b.group by {
            if i < v.batches[g as int].len() {
                assert(b.messages[i] == v.batches[g as int][i]);
            }
        }
    }
}

/// Adding a message moves no message and loses none: for each group, the
/// messages pending before, followed by the new one if it is of the group, are
/// those of the emitted batch, if any, followed by those pending after. The
/// emitted batch, if any, is numbered by its group's counter, which then
/// counts it.
pub proof fn lemma_add_conserves(v: ParquetWriterView, msg: ItchMessage, g: nat)
    requires
        v.wf(),
        g < GROUP_COUNT,
    ensures
        v.batches[g as int] + (if group_of(msg) == g {
            seq![msg]
        } else {
            seq![]
        }) == (match v.add(msg).1 {
            Some(b) => if b.group == g {
                b.messages
            } else {
                seq![]
            },
            None => seq![],
        }) + v.add(msg).0.batches[g as int],
        v.add(msg).0.file_counters[g as int] == v.file_counters[g as int] + (match v.add(msg).1 {
            Some(b) => if b.group == g {
                1nat
            } else {
                0nat
            },
            None => 0nat,
        }),
        v.add(msg).1 matches Some(b) ==> b.group == group_of(msg) && b.file_index
            == v.file_counters[b.group as int],
{
    let (w, b) = v.add(msg);
    let mg = group_of(msg);
    let msgs = v.batches[mg as int].push(msg);
    if mg == g {
        if msgs.len() >= v.batch_size {
            assert(v.batches[g as int] + seq![msg] =~= msgs + w.batches[g as int]);
        } else {
            assert(v.batches[g as int] + seq![msg] =~= seq![] + w.batches[g as int]);
        }
    } else {
        assert(v.batches[g as int] + seq![] =~= seq![] + w.batches[g as int]);
    }
}

/// Over a stream of messages added in order to a writer whose batches hold
/// at least one message and that holds no full batch, each group's emitted
/// batches of `batch_size` messages and its pending messages together account
/// for the messages it held and those of the stream in the group; it never
/// holds a full batch.
pub proof fn lemma_add_all_counts(v: ParquetWriterView, msgs: Seq<ItchMessage>)
    requires
        v.wf(),
        v.batch_size >= 1,
        forall|g: int| 0 <= g < GROUP_COUNT ==> #[trigger] v.batches[g].len() < v.batch_size,
    ensures
        forall|g: int| 0 <= g < GROUP_COUNT ==> #[trigger] add_all(v, msgs).0.batches[g].len() < v.batch_size,
        forall|g: nat|
            g < GROUP_COUNT ==> #[trigger] add_all(v, msgs).0.file_counters[g as int] * v.batch_size
                + add_all(v, msgs).0.batches[g as int].len() == v.file_counters[g as int]
                * v.batch_size + v.batches[g as int].len() + group_messages(msgs, g).len(),
    decreases msgs.len(),
{
    let bs = v.batch_size;
    if msgs.len() > 0 {
        let before = msgs.drop_last();
        let m = msgs.last();
        lemma_add_all_counts(v, before);
        lemma_add_all(v, before);
        let w = add_all(v, before).0;
        let next = w.add(m).0;
        assert(add_all(v, msgs).0 == next);
        assert forall|g: nat| g < GROUP_COUNT implies #[trigger] next.batches[g as int].len() < bs
            && next.file_counters[g as int] * bs + next.batches[g as int].len()
            == w.file_counters[g as int] * bs + w.batches[g as int].len() + group_messages(
            msgs,
            g,
        ).len() - group_messages(before, g).len() by {
            if group_of(m) == g {
                let c = w.file_counters[g as int];
                assert((c + 1) * bs == c * bs + bs) by (nonlinear_arith);
                assert(group_messages(msgs, g).len() == group_messages(before, g).len() + 1);
            } else {
                assert(group_messages(msgs, g) =~= group_messages(before, g));
                if group_of(m) < GROUP_COUNT {
                    assert(next.batches[g as int] == w.batches[g as int]);
                    assert(next.file_counters[g as int] == w.file_counters[g as int]);
                }
            }
        }
        assert forall|g: int| 0 <= g < GROUP_COUNT implies #[trigger] next.batches[g].len() < bs by {
            assert(next.batches[g as nat as int].len() < bs);
        }
    }
}

/// Batches come out full: a fresh writer whose batches hold at least one
/// message, handed the messages `msgs` in order, has emitted for each group as
/// many batches as there are whole runs of `batch_size` messages of the group,
/// and holds the rest of them pending.
pub proof fn lemma_batch_count(v: ParquetWriterView, msgs: Seq<ItchMessage>)
    requires
        v.wf(),
        v.batch_size >= 1,
        forall|g: int| 0 <= g < GROUP_COUNT ==> #[trigger] v.batches[g] == Seq::<ItchMessage>::empty(),
        forall|g: int| 0 <= g < GROUP_COUNT ==> #[trigger] v.file_counters[g] == 0,
    ensures
        forall|g: nat|
            g < GROUP_COUNT ==> {
                &&& #[trigger] add_all(v, msgs).0.file_counters[g as int] == group_messages(
                    msgs,
                    g,
                ).len() / v.batch_size
                &&& batch_indices(add_all(v, msgs).1, g).len() == group_messages(msgs, g).len()
                    / v.batch_size
                &&& add_all(v, msgs).0.batches[g as int].len() == group_messages(msgs, g).len()
                    % v.batch_size
            },
{
    lemma_add_all_counts(v, msgs);
    lemma_add_all(v, msgs);
    let w = add_all(v, msgs).0;
    assert forall|g: nat| g < GROUP_COUNT implies {
        &&& #[trigger] w.file_counters[g as int] == group_messages(msgs, g).len() / v.batch_size
        &&& batch_indices(add_all(v, msgs).1, g).len() == group_messages(msgs, g).len()
            / v.batch_size
        &&& w.batches[g as int].len() == group_messages(msgs, g).len() % v.batch_size
    } by {
        assert(v.file_counters[g as int] * v.batch_size == 0);
        assert(w.batches[g as int].len() < v.batch_size);
        vstd::arithmetic::div_mod::lemma_fundamental_div_mod_converse(
            group_messages(msgs, g).len() as int,
            v.batch_size as int,
            w.file_counters[g as int] as int,
            w.batches[g as int].len() as int,
        );
    }
}

/// A writer whose groups from `g` on hold no messages emits nothing when
/// flushed from `g`, and stays as it is.
pub proof fn lemma_flush_from_empty(v: ParquetWriterView, g: nat)
    requires
        forall|h: int| g <= h < GROUP_COUNT ==> #[trigger] v.batches[h].len() == 0,
    ensures
        v.flush_from(g) == (v, Seq::<MessageBatchView>::empty()),
    decreases GROUP_COUNT - g,
{
    if g < GROUP_COUNT {
        lemma_flush_from_empty(v, g + 1);
    }
}

/// Flushing twice is flushing once: right after a flush, a second one emits
/// no batch and leaves the writer as it is.
pub proof fn lemma_flush_idempotent(v: ParquetWriterView)
    requires
        v.wf(),
    ensures
        v.flush_from(0).0.flush_from(0) == (v.flush_from(0).0, Seq::<MessageBatchView>::empty()),
{
    lemma_flush_from(v, 0);
    lemma_flush_from_empty(v.flush_from(0).0, 0);
}

/// The messages and file indices over two runs of batches are those over the
/// first followed by those over the second.
pub proof fn lemma_emitted_concat(a: Seq<MessageBatchView>, b: Seq<MessageBatchView>, g: nat)
    ensures
        emitted_messages(a + b, g) == emitted_messages(a, g) + emitted_messages(b, g),
        batch_indices(a + b, g) == batch_indices(a, g) + batch_indices(b, g),
    decreases b.len(),
{
    if b.len() == 0 {
        assert(a + b =~= a);
        assert(emitted_messages(a, g) + seq![] =~= emitted_messages(a, g));
        assert(batch_indices(a, g) + seq![] =~= batch_indices(a, g));
    } else {
        lemma_emitted_concat(a, b.drop_last(), g);
        assert((a + b).drop_last() =~= a + b.drop_last());
        assert((a + b).last() == b.last());
        assert(emitted_messages(a + b, g) =~= emitted_messages(a, g) + emitted_messages(b, g));
        assert(batch_indices(a + b, g) =~= batch_indices(a, g) + batch_indices(b, g));
    }
}

/// Over a stream of messages added in order, the writer stays well formed,
/// and for each group the messages pending at the start, followed by those of
/// the stream that belong to the group, are those of the emitted batches of
/// the group, in order, followed by those pending at the end. The batches of a
/// group are numbered one after another from the group's counter at the start.
pub proof fn lemma_add_all(v: ParquetWriterView, msgs: Seq<ItchMessage>)
    requires
        v.wf(),
    ensures
        add_all(v, msgs).0.wf(),
        add_all(v, msgs).0.batch_size == v.batch_size,
        add_all(v, msgs).0.output_dir == v.output_dir,
        forall|g: nat|
            g < GROUP_COUNT ==> v.batches[g as int] + #[trigger] group_messages(msgs, g)
                == emitted_messages(add_all(v, msgs).1, g) + add_all(v, msgs).0.batches[g as int],
        forall|g: int|
            0 <= g < GROUP_COUNT ==> #[trigger] add_all(v, msgs).0.file_counters[g] >= v.file_counters[g],
        forall|g: nat|
            g < GROUP_COUNT ==> #[trigger] batch_indices(add_all(v, msgs).1, g) == consecutive(
                v.file_counters[g as int],
                (add_all(v, msgs).0.file_counters[g as int] - v.file_counters[g as int]) as nat,
            ),
    decreases msgs.len(),
{
    if msgs.len() == 0 {
        assert forall|g: nat| g < GROUP_COUNT implies v.batches[g as int] + #[trigger] group_messages(
            msgs,
            g,
        ) == emitted_messages(add_all(v, msgs).1, g) + add_all(v, msgs).0.batches[g as int] by {
            assert(v.batches[g as int] + seq![] =~= seq![] + v.batches[g as int]);
        }
        assert forall|g: nat| g < GROUP_COUNT implies #[trigger] batch_indices(add_all(v, msgs).1, g)
            == consecutive(
            v.file_counters[g as int],
            (add_all(v, msgs).0.file_counters[g as int] - v.file_counters[g as int]) as nat,
        ) by {
            assert(consecutive(v.file_counters[g as int], 0) =~= seq![]);
        }
    } else {
        let before = msgs.drop_last();
        let m = msgs.last();
        lemma_add_all(v, before);
        let (w, bs) = add_all(v, before);
        lemma_add_wf(w, m);
        let (next, b) = w.add(m);
        let out = add_all(v, msgs).1;
        assert(add_all(v, msgs).0 == next);
        assert forall|g: nat| g < GROUP_COUNT implies v.batches[g as int] + #[trigger] group_messages(
            msgs,
            g,
        ) == emitted_messages(out, g) + next.batches[g as int] by {
            lemma_add_conserves(w, m, g);
            let extra = if group_of(m) == g {
                seq![m]
            } else {
                seq![]
            };
            let sent = match b {
                Some(b) => if b.group == g {
                    b.messages
                } else {
                    seq![]
                },
                None => seq![],
            };
            assert(group_messages(msgs, g) == group_messages(before, g) + extra);
            match b {
                Some(bb) => {
                    assert(out.drop_last() =~= bs);
                    assert(emitted_messages(out, g) == emitted_messages(bs, g) + sent);
                },
                None => {
                    assert(emitted_messages(out, g) =~= emitted_messages(bs, g) + sent);
                },
            }
            assert(v.batches[g as int] + group_messages(before, g) + extra =~= emitted_messages(bs, g)
                + w.batches[g as int] + extra);
            assert(emitted_messages(bs, g) + (w.batches[g as int] + extra) =~= emitted_messages(bs, g)
                + (sent + next.batches[g as int]));
            assert(v.batches[g as int] + (group_messages(before, g) + extra) =~= v.batches[g as int]
                + group_messages(before, g) + extra);
            assert(emitted_messages(bs, g) + sent + next.batches[g as int] =~= emitted_messages(bs, g)
                + (sent + next.batches[g as int]));
        }
        assert forall|g: int| 0 <= g < GROUP_COUNT implies #[trigger] next.file_counters[g]
            >= v.file_counters[g] by {
            lemma_add_conserves(w, m, g as nat);
            assert(w.file_counters[g] >= v.file_counters[g]);
        }
        assert forall|g: nat| g < GROUP_COUNT implies #[trigger] batch_indices(out, g) == consecutive(
            v.file_counters[g as int],
            (next.file_counters[g as int] - v.file_counters[g as int]) as nat,
        ) by {
            lemma_add_conserves(w, m, g);
            assert(w.file_counters[g as int] >= v.file_counters[g as int]);
            let n0 = (w.file_counters[g as int] - v.file_counters[g as int]) as nat;
            assert(batch_indices(bs, g) == consecutive(v.file_counters[g as int], n0));
            match b {
                Some(bb) => {
                    assert(out.drop_last() =~= bs);
                    if bb.group == g {
                        assert(consecutive(v.file_counters[g as int], n0 + 1) =~= consecutive(
                            v.file_counters[g as int],
                            n0,
                        ).push(w.file_counters[g as int]));
                    } else {
                        assert(batch_indices(out, g) =~= batch_indices(bs, g));
                    }
                },
                None => {},
            }
        }
    }
}

/// Emitting every group from `g` on with pending messages leaves those groups
/// empty, sends out each group's pending messages once, numbered by its
/// counter, and leaves the groups before `g` as they were.
pub proof fn lemma_flush_from(v: ParquetWriterView, g: nat)
    requires
        v.wf(),
        g <= GROUP_COUNT,
    ensures
        v.flush_from(g).0.wf(),
        v.flush_from(g).0.batch_size == v.batch_size,
        v.flush_from(g).0.output_dir == v.output_dir,
        forall|h: int| 0 <= h < g ==> #[trigger] v.flush_from(g).0.batches[h] == v.batches[h],
        forall|h: int| g <= h < GROUP_COUNT ==> #[trigger] v.flush_from(g).0.batches[h] == Seq::<
            ItchMessage,
        >::empty(),
        forall|h: int|
            0 <= h < GROUP_COUNT ==> #[trigger] v.flush_from(g).0.file_counters[h] == v.file_counters[h]
                + if g <= h && v.batches[h].len() > 0 {
                1nat
            } else {
                0nat
            },
        forall|h: nat|
            h < GROUP_COUNT ==> #[trigger] emitted_messages(v.flush_from(g).1, h) == if g <= h {
                v.batches[h as int]
            } else {
                seq![]
            },
        forall|h: nat|
            h < GROUP_COUNT ==> #[trigger] batch_indices(v.flush_from(g).1, h) == if g <= h
                && v.batches[h as int].len() > 0 {
                seq![v.file_counters[h as int]]
            } else {
                seq![]
            },
    decreases GROUP_COUNT - g,
{
    if g == GROUP_COUNT {
    } else if v.batches[g as int].len() > 0 {
        let (next, batch) = v.emit(g, v.batches[g as int]);
        assert forall|h: int, i: int|
            0 <= h < GROUP_COUNT && 0 <= i < next.batches[h].len() implies group_of(
            #[trigger] next.batches[h][i],
        ) == h by {
            assert(next.batches[h][i] == v.batches[h][i]);
        }
        lemma_flush_from(next, g + 1);
        let (last, rest) = next.flush_from(g + 1);
        assert(seq![batch].drop_last() =~= Seq::<MessageBatchView>::empty());
        assert(seq![batch].last() == batch);
        assert forall|h: nat| h < GROUP_COUNT implies #[trigger] emitted_messages(v.flush_from(g).1, h)
            == if g <= h {
            v.batches[h as int]
        } else {
            seq![]
        } by {
            lemma_emitted_concat(seq![batch], rest, h);
            assert(emitted_messages(Seq::<MessageBatchView>::empty(), h) == Seq::<ItchMessage>::empty());
            if h == g {
                assert(emitted_messages(seq![batch], h) =~= batch.messages);
                assert(v.batches[h as int] + seq![] =~= v.batches[h as int]);
            } else {
                assert(emitted_messages(seq![batch], h) =~= seq![]);
                assert(seq![] + emitted_messages(rest, h) =~= emitted_messages(rest, h));
            }
        }
        assert forall|h: nat| h < GROUP_COUNT implies #[trigger] batch_indices(v.flush_from(g).1, h)
            == if g <= h && v.batches[h as int].len() > 0 {
            seq![v.file_counters[h as int]]
        } else {
            seq![]
        } by {
            lemma_emitted_concat(seq![batch], rest, h);
            assert(batch_indices(Seq::<MessageBatchView>::empty(), h) == Seq::<nat>::empty());
            if h == g {
                assert(batch_indices(seq![batch], h) =~= seq![v.file_counters[h as int]]);
                assert(seq![v.file_counters[h as int]] + seq![] =~= seq![v.file_counters[h as int]]);
            } else {
                assert(batch_indices(seq![batch], h) =~= seq![]);
                assert(seq![] + batch_indices(rest, h) =~= batch_indices(rest, h));
                if h > g {
                    assert(next.batches[h as int] == v.batches[h as int]);
                }
            }
        }
        assert forall|h: int| 0 <= h < GROUP_COUNT implies #[trigger] v.flush_from(g).0.file_counters[h]
            == v.file_counters[h] + if g <= h && v.batches[h].len() > 0 {
            1nat
        } else {
            0nat
        } by {
            if h != g {
                assert(next.batches[h] == v.batches[h]);
            }
        }
        assert forall|h: int| 0 <= h < g implies #[trigger] v.flush_from(g).0.batches[h] == v.batches[h] by {}
    } else {
        lemma_flush_from(v, g + 1);
        assert forall|h: nat| h < GROUP_COUNT implies #[trigger] emitted_messages(v.flush_from(g).1, h)
            == if g <= h {
            v.batches[h as int]
        } else {
            seq![]
        } by {
            if h == g {
                assert(v.batches[h as int] =~= seq![]);
            }
        }
        assert forall|h: int| g <= h < GROUP_COUNT implies #[trigger] v.flush_from(g).0.batches[h]
            == Seq::<ItchMessage>::empty() by {
            if h == g {
                assert(v.batches[h] =~= Seq::<ItchMessage>::empty());
            }
        }
    }
}

/// A fresh writer that is handed the messages `msgs`, in order, and then
/// flushed, writes every message exactly once, in order, into the batches of
/// its group; it holds nothing back; and it numbers the files of each group
/// one after another from 0.
pub proof fn lemma_every_message_written(v: ParquetWriterView, msgs: Seq<ItchMessage>)
    requires
        v.wf(),
        forall|g: int| 0 <= g < GROUP_COUNT ==> #[trigger] v.batches[g] == Seq::<ItchMessage>::empty(),
        forall|g: int| 0 <= g < GROUP_COUNT ==> #[trigger] v.file_counters[g] == 0,
    ensures
        forall|g: nat|
            g < GROUP_COUNT ==> #[trigger] emitted_messages(
                add_all(v, msgs).1 + add_all(v, msgs).0.flush_from(0).1,
                g,
            ) == group_messages(msgs, g),
        forall|g: int|
            0 <= g < GROUP_COUNT ==> #[trigger] add_all(v, msgs).0.flush_from(0).0.batches[g] == Seq::<
                ItchMessage,
            >::empty(),
        forall|g: nat|
            g < GROUP_COUNT ==> #[trigger] batch_indices(
                add_all(v, msgs).1 + add_all(v, msgs).0.flush_from(0).1,
                g,
            ) == consecutive(0, add_all(v, msgs).0.flush_from(0).0.file_counters[g as int]),
{
    lemma_add_all(v, msgs);
    let (w, bs) = add_all(v, msgs);
    lemma_flush_from(w, 0);
    let (last, rest) = w.flush_from(0);
    assert forall|g: nat| g < GROUP_COUNT implies #[trigger] emitted_messages(bs + rest, g)
        == group_messages(msgs, g) by {
        lemma_emitted_concat(bs, rest, g);
        assert(v.batches[g as int] + group_messages(msgs, g) =~= group_messages(msgs, g));
        assert(emitted_messages(bs, g) + w.batches[g as int] == group_messages(msgs, g));
    }
    assert forall|g: nat| g < GROUP_COUNT implies #[trigger] batch_indices(bs + rest, g) == consecutive(
        0,
        last.file_counters[g as int],
    ) by {
        lemma_emitted_concat(bs, rest, g);
        let n = w.file_counters[g as int];
        assert(batch_indices(bs, g) == consecutive(0, n));
        if w.batches[g as int].len() > 0 {
            assert(consecutive(0, n + 1) =~= consecutive(0, n) + seq![n]);
        } else {
            assert(consecutive(0, n) + seq![] =~= consecutive(0, n));
        }
    }
}

} // verus!
