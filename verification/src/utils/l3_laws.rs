use vstd::prelude::*;

use super::l3_writer::{
    cell_value,
    empty_schema,
    kind_of,
    lemma_push_row_shaped,
    lemma_row_fits,
    push_row,
    row_count,
    row_of,
    shaped,
    BatchView,
    L3WriterView,
    KIND_COUNT,
};
use crate::schema::itchformat::ItchMessage;

verus! {

/// The writer and the batches it emits after the messages `msgs`, added in
/// order.
pub open spec fn add_all(v: L3WriterView, msgs: Seq<ItchMessage>) -> (L3WriterView, Seq<BatchView>)
    decreases msgs.len(),
{
    if msgs.len() == 0 {
        (v, seq![])
    } else {
        let (w, bs) = add_all(v, msgs.drop_last());
        let (next, b) = w.add(msgs.last());
        (
            next,
            match b {
                Some(b) => bs.push(b),
                None => bs,
            },
        )
    }
}

/// The values that the messages `msgs` put into column `j` of kind `k`, in order.
pub open spec fn kind_values(msgs: Seq<ItchMessage>, k: nat, j: int) -> Seq<int>
    decreases msgs.len(),
{
    if msgs.len() == 0 {
        seq![]
    } else {
        kind_values(msgs.drop_last(), k, j) + if kind_of(msgs.last()) == Some(k) {
            seq![cell_value(row_of(msgs.last())[j])]
        } else {
            seq![]
        }
    }
}

/// The values of column `j` of the batches of kind `k` among `bs`, one batch
/// after another.
pub open spec fn emitted_values(bs: Seq<BatchView>, k: nat, j: int) -> Seq<int>
    decreases bs.len(),
{
    if bs.len() == 0 {
        seq![]
    } else {
        emitted_values(bs.drop_last(), k, j) + if bs.last().kind == k {
            bs.last().columns[j].values
        } else {
            seq![]
        }
    }
}

/// The file indices of the batches of kind `k` among `bs`, in order.
pub open spec fn batch_indices(bs: Seq<BatchView>, k: nat) -> Seq<nat>
    decreases bs.len(),
{
    if bs.len() == 0 {
        seq![]
    } else {
        batch_indices(bs.drop_last(), k) + if bs.last().kind == k {
            seq![bs.last().file_index]
        } else {
            seq![]
        }
    }
}

/// The numbers from `start` on, `n` of them.
pub open spec fn consecutive(start: nat, n: nat) -> Seq<nat> {
    Seq::new(n, |i: int| (start + i) as nat)
}

/// No kind has pending rows it should already have emitted: each holds fewer
/// than `batch_size` rows, or none.
pub open spec fn below_batch(v: L3WriterView) -> bool {
    forall|k: int|
        0 <= k < KIND_COUNT ==> row_count(#[trigger] v.pending[k]) < v.batch_size || row_count(
            v.pending[k],
        ) == 0
}

/// The empty columns of a kind are shaped by it.
pub proof fn lemma_empty_schema_shaped(k: nat)
    ensures
        shaped(empty_schema(k), k),
        row_count(empty_schema(k)) == 0,
{
}

/// Adding a message keeps the writer well formed.
pub proof fn lemma_add_wf(v: L3WriterView, msg: ItchMessage)
    requires
        v.wf(),
    ensures
        v.add(msg).0.wf(),
        v.add(msg).0.batch_size == v.batch_size,
        v.add(msg).0.output_dir == v.output_dir,
{
    if let Some(k) = kind_of(msg) {
        lemma_row_fits(msg);
        lemma_push_row_shaped(v.pending[k as int], row_of(msg), k);
        lemma_empty_schema_shaped(k);
        let w = v.add(msg).0;
        assert forall|i: int| 0 <= i < KIND_COUNT implies shaped(#[trigger] w.pending[i], i as nat) by {
            if i != k {
                assert(w.pending[i] == v.pending[i]);
            }
        }
    }
}

/// A batch that adding a message emits holds `batch_size` rows, or one row
/// where `batch_size` is 0; and no kind is left holding a full batch.
pub proof fn lemma_add_batch_size(v: L3WriterView, msg: ItchMessage)
    requires
        v.wf(),
        below_batch(v),
    ensures
        below_batch(v.add(msg).0),
        v.add(msg).1 matches Some(b) ==> row_count(b.columns) == if v.batch_size == 0 {
            1
        } else {
            v.batch_size
        },
{
    if let Some(k) = kind_of(msg) {
        lemma_row_fits(msg);
        lemma_push_row_shaped(v.pending[k as int], row_of(msg), k);
        lemma_empty_schema_shaped(k);
        let w = v.add(msg).0;
        assert forall|i: int| 0 <= i < KIND_COUNT implies row_count(#[trigger] w.pending[i])
            < w.batch_size || row_count(w.pending[i]) == 0 by {
            if i != k {
                assert(w.pending[i] == v.pending[i]);
            }
        }
    }
}

/// Adding a message moves no value and loses none: for each column, the
/// values pending before, followed by the one that the message brings, are
/// those of the emitted batch, if any, followed by those pending after. The
/// emitted batch, if any, is numbered by its kind's counter, which then counts
/// it.
pub proof fn lemma_add_conserves(v: L3WriterView, msg: ItchMessage, k: nat, j: int)
    requires
        v.wf(),
        k < KIND_COUNT,
        0 <= j < empty_schema(k).len(),
    ensures
        v.pending[k as int][j].values + (if kind_of(msg) == Some(k) {
            seq![cell_value(row_of(msg)[j])]
        } else {
            seq![]
        }) == (match v.add(msg).1 {
            Some(b) => if b.kind == k {
                b.columns[j].values
            } else {
                seq![]
            },
            None => seq![],
        }) + v.add(msg).0.pending[k as int][j].values,
        v.add(msg).0.file_counters[k as int] == v.file_counters[k as int] + (match v.add(msg).1 {
            Some(b) => if b.kind == k {
                1nat
            } else {
                0nat
            },
            None => 0nat,
        }),
        v.add(msg).1 matches Some(b) ==> b.kind < KIND_COUNT && b.file_index
            == v.file_counters[b.kind as int] && b.kind == kind_of(msg)->0,
{
    let (w, b) = v.add(msg);
    assert(shaped(v.pending[k as int], k));
    if let Some(mk) = kind_of(msg) {
        let cols = push_row(v.pending[mk as int], row_of(msg));
        if mk == k {
            assert(cols[j].values == v.pending[k as int][j].values.push(cell_value(row_of(msg)[j])));
            if row_count(cols) >= v.batch_size {
                assert(w.pending[k as int][j].values =~= seq![]);
                assert(v.pending[k as int][j].values + seq![cell_value(row_of(msg)[j])]
                    =~= cols[j].values + w.pending[k as int][j].values);
            } else {
                assert(v.pending[k as int][j].values + seq![cell_value(row_of(msg)[j])]
                    =~= seq![] + w.pending[k as int][j].values);
            }
        } else {
            assert(w.pending[k as int] == v.pending[k as int]);
            assert(v.pending[k as int][j].values + seq![] =~= seq![] + w.pending[k as int][j].values);
        }
    } else {
        assert(v.pending[k as int][j].values + seq![] =~= seq![] + w.pending[k as int][j].values);
    }
}

/// Over a stream of messages added in order, the writer stays well formed,
/// and for each column the values pending at the start, followed by those
/// that the messages bring, are those of the emitted batches of the kind, in
/// order, followed by those pending at the end. The batches of a kind are
/// numbered one after another from the kind's counter at the start.
pub proof fn lemma_add_all(v: L3WriterView, msgs: Seq<ItchMessage>)
    requires
        v.wf(),
    ensures
        add_all(v, msgs).0.wf(),
        add_all(v, msgs).0.batch_size == v.batch_size,
        add_all(v, msgs).0.output_dir == v.output_dir,
        forall|k: nat, j: int|
            k < KIND_COUNT && 0 <= j < empty_schema(k).len() ==> v.pending[k as int][j].values
                + #[trigger] kind_values(msgs, k, j) == emitted_values(add_all(v, msgs).1, k, j)
                + add_all(v, msgs).0.pending[k as int][j].values,
        forall|k: int|
            0 <= k < KIND_COUNT ==> #[trigger] add_all(v, msgs).0.file_counters[k] >= v.file_counters[k],
        forall|k: nat|
            k < KIND_COUNT ==> #[trigger] batch_indices(add_all(v, msgs).1, k) == consecutive(
                v.file_counters[k as int],
                (add_all(v, msgs).0.file_counters[k as int] - v.file_counters[k as int]) as nat,
            ),
    decreases msgs.len(),
{
    if msgs.len() == 0 {
        assert forall|k: nat, j: int|
            k < KIND_COUNT && 0 <= j < empty_schema(k).len() implies v.pending[k as int][j].values
            + #[trigger] kind_values(msgs, k, j) == emitted_values(add_all(v, msgs).1, k, j)
            + add_all(v, msgs).0.pending[k as int][j].values by {
            assert(v.pending[k as int][j].values + seq![] =~= seq![] + v.pending[k as int][j].values);
        }
        assert forall|k: nat| k < KIND_COUNT implies #[trigger] batch_indices(add_all(v, msgs).1, k)
            == consecutive(
            v.file_counters[k as int],
            (add_all(v, msgs).0.file_counters[k as int] - v.file_counters[k as int]) as nat,
        ) by {
            assert(consecutive(v.file_counters[k as int], 0) =~= seq![]);
        }
        assert(add_all(v, msgs).0 == v);
    } else {
        let before = msgs.drop_last();
        let m = msgs.last();
        lemma_add_all(v, before);
        let (w, bs) = add_all(v, before);
        lemma_add_wf(w, m);
        let (next, b) = w.add(m);
        let out = add_all(v, msgs).1;
        assert forall|k: nat, j: int|
            k < KIND_COUNT && 0 <= j < empty_schema(k).len() implies v.pending[k as int][j].values
            + #[trigger] kind_values(msgs, k, j) == emitted_values(out, k, j)
            + next.pending[k as int][j].values by {
            lemma_add_conserves(w, m, k, j);
            let extra = if kind_of(m) == Some(k) {
                seq![cell_value(row_of(m)[j])]
            } else {
                seq![]
            };
            let sent = match b {
                Some(b) => if b.kind == k {
                    b.columns[j].values
                } else {
                    seq![]
                },
                None => seq![],
            };
            assert(kind_values(msgs, k, j) == kind_values(before, k, j) + extra);
            match b {
                Some(bb) => {
                    assert(out.drop_last() =~= bs);
                    assert(emitted_values(out, k, j) == emitted_values(bs, k, j) + sent);
                },
                None => {
                    assert(emitted_values(out, k, j) =~= emitted_values(bs, k, j) + sent);
                },
            }
            assert(v.pending[k as int][j].values + kind_values(before, k, j) + extra
                =~= emitted_values(bs, k, j) + w.pending[k as int][j].values + extra);
            assert(emitted_values(bs, k, j) + (w.pending[k as int][j].values + extra)
                =~= emitted_values(bs, k, j) + (sent + next.pending[k as int][j].values));
            assert(v.pending[k as int][j].values + (kind_values(before, k, j) + extra)
                =~= v.pending[k as int][j].values + kind_values(before, k, j) + extra);
            assert(emitted_values(bs, k, j) + sent + next.pending[k as int][j].values
                =~= emitted_values(bs, k, j) + (sent + next.pending[k as int][j].values));
        }
        assert forall|k: nat| k < KIND_COUNT implies next.file_counters[k as int]
            >= v.file_counters[k as int] && #[trigger] batch_indices(out, k) == consecutive(
            v.file_counters[k as int],
            (next.file_counters[k as int] - v.file_counters[k as int]) as nat,
        ) by {
            lemma_add_conserves(w, m, k, 0);
            let n0 = (w.file_counters[k as int] - v.file_counters[k as int]) as nat;
            assert(batch_indices(bs, k) == consecutive(v.file_counters[k as int], n0));
            match b {
                Some(bb) => {
                    assert(out.drop_last() =~= bs);
                    if bb.kind == k {
                        assert(consecutive(v.file_counters[k as int], n0 + 1) =~= consecutive(
                            v.file_counters[k as int],
                            n0,
                        ).push(w.file_counters[k as int]));
                    } else {
                        assert(batch_indices(out, k) =~= batch_indices(bs, k));
                    }
                },
                None => {},
            }
        }
        assert(add_all(v, msgs).0 == next);
        assert forall|k: int| 0 <= k < KIND_COUNT implies #[trigger] next.file_counters[k]
            >= v.file_counters[k] by {
            assert(batch_indices(out, k as nat) == batch_indices(out, k as nat));
        }
    }
}

/// How many of the messages `msgs` are of kind `k`.
pub open spec fn kind_count(msgs: Seq<ItchMessage>, k: nat) -> nat
    decreases msgs.len(),
{
    if msgs.len() == 0 {
        0
    } else {
        kind_count(msgs.drop_last(), k) + if kind_of(msgs.last()) == Some(k) {
            1nat
        } else {
            0nat
        }
    }
}

/// Over a stream of messages added in order to a writer whose batches hold
/// at least one row and that holds no full batch, each kind's emitted batches
/// of `batch_size` rows and its pending rows together account for the rows it
/// held and one row per message of the kind; it never holds a full batch.
pub proof fn lemma_add_all_counts(v: L3WriterView, msgs: Seq<ItchMessage>)
    requires
        v.wf(),
        v.batch_size >= 1,
        forall|k: int| 0 <= k < KIND_COUNT ==> #[trigger] row_count(v.pending[k]) < v.batch_size,
    ensures
        forall|k: int| 0 <= k < KIND_COUNT ==> #[trigger] row_count(add_all(v, msgs).0.pending[k]) < v.batch_size,
        forall|k: nat|
            k < KIND_COUNT ==> #[trigger] add_all(v, msgs).0.file_counters[k as int] * v.batch_size
                + row_count(add_all(v, msgs).0.pending[k as int]) == v.file_counters[k as int]
                * v.batch_size + row_count(v.pending[k as int]) + kind_count(msgs, k),
    decreases msgs.len(),
{
    let bs = v.batch_size;
    if msgs.len() > 0 {
        let before = msgs.drop_last();
        let m = msgs.last();
        lemma_add_all_counts(v, before);
        lemma_add_all(v, before);
        let w = add_all(v, before).0;
        let next = w.add(m).0;
        assert(add_all(v, msgs).0 == next);
        assert forall|k: nat| k < KIND_COUNT implies row_count(#[trigger] next.pending[k as int]) < bs
            && next.file_counters[k as int] * bs + row_count(next.pending[k as int])
            == w.file_counters[k as int] * bs + row_count(w.pending[k as int]) + if kind_of(m)
            == Some(k) {
            1nat
        } else {
            0nat
        } by {
            lemma_empty_schema_shaped(k);
            if kind_of(m) == Some(k) {
                lemma_row_fits(m);
                lemma_push_row_shaped(w.pending[k as int], row_of(m), k);
                let c = w.file_counters[k as int];
                assert((c + 1) * bs == c * bs + bs) by (nonlinear_arith);
            } else if let Some(k2) = kind_of(m) {
                assert(next.pending[k as int] == w.pending[k as int]);
                assert(next.file_counters[k as int] == w.file_counters[k as int]);
            }
        }
        assert forall|k: int| 0 <= k < KIND_COUNT implies #[trigger] row_count(next.pending[k]) < bs by {
            assert(row_count(next.pending[k as nat as int]) < bs);
        }
    }
}

/// Batches come out full: a fresh writer whose batches hold at least one row,
/// handed the messages `msgs` in order, has emitted for each kind as many
/// batches as there are whole runs of `batch_size` messages of the kind, and
/// holds the rest of them pending.
pub proof fn lemma_batch_count(v: L3WriterView, msgs: Seq<ItchMessage>)
    requires
        v.wf(),
        v.batch_size >= 1,
        forall|k: int| 0 <= k < KIND_COUNT ==> #[trigger] v.pending[k] == empty_schema(k as nat),
        forall|k: int| 0 <= k < KIND_COUNT ==> #[trigger] v.file_counters[k] == 0,
    ensures
        forall|k: nat|
            k < KIND_COUNT ==> {
                &&& #[trigger] add_all(v, msgs).0.file_counters[k as int] == kind_count(msgs, k)
                    / v.batch_size
                &&& batch_indices(add_all(v, msgs).1, k).len() == kind_count(msgs, k) / v.batch_size
                &&& row_count(add_all(v, msgs).0.pending[k as int]) == kind_count(msgs, k)
                    % v.batch_size
            },
{
    assert forall|k: int| 0 <= k < KIND_COUNT implies #[trigger] row_count(v.pending[k]) < v.batch_size by {
        lemma_empty_schema_shaped(k as nat);
    }
    lemma_add_all_counts(v, msgs);
    lemma_add_all(v, msgs);
    let w = add_all(v, msgs).0;
    assert forall|k: nat| k < KIND_COUNT implies {
        &&& #[trigger] w.file_counters[k as int] == kind_count(msgs, k) / v.batch_size
        &&& batch_indices(add_all(v, msgs).1, k).len() == kind_count(msgs, k) / v.batch_size
        &&& row_count(w.pending[k as int]) == kind_count(msgs, k) % v.batch_size
    } by {
        lemma_empty_schema_shaped(k);
        assert(v.file_counters[k as int] * v.batch_size == 0);
        assert(row_count(w.pending[k as int]) < v.batch_size);
        vstd::arithmetic::div_mod::lemma_fundamental_div_mod_converse(
            kind_count(msgs, k) as int,
            v.batch_size as int,
            w.file_counters[k as int] as int,
            row_count(w.pending[k as int]) as int,
        );
    }
}

/// A writer whose kinds from `g` on hold no rows emits nothing when flushed
/// from `g`, and stays as it is.
pub proof fn lemma_flush_from_empty(v: L3WriterView, g: nat)
    requires
        forall|k: int| g <= k < KIND_COUNT ==> row_count(#[trigger] v.pending[k]) == 0,
    ensures
        v.flush_from(g) == (v, Seq::<BatchView>::empty()),
    decreases KIND_COUNT - g,
{
    if g < KIND_COUNT {
        lemma_flush_from_empty(v, g + 1);
    }
}

/// Flushing twice is flushing once: right after a flush, a second one emits
/// no batch and leaves the writer as it is.
pub proof fn lemma_flush_idempotent(v: L3WriterView)
    requires
        v.wf(),
    ensures
        v.flush_from(0).0.flush_from(0) == (v.flush_from(0).0, Seq::<BatchView>::empty()),
{
    lemma_flush_from(v, 0);
    let w = v.flush_from(0).0;
    assert forall|k: int| 0 <= k < KIND_COUNT implies row_count(#[trigger] w.pending[k]) == 0 by {
        lemma_empty_schema_shaped(k as nat);
    }
    lemma_flush_from_empty(w, 0);
}

/// The values of a column over two runs of batches are those over the first
/// followed by those over the second.
pub proof fn lemma_emitted_concat(a: Seq<BatchView>, b: Seq<BatchView>, k: nat, j: int)
    ensures
        emitted_values(a + b, k, j) == emitted_values(a, k, j) + emitted_values(b, k, j),
        batch_indices(a + b, k) == batch_indices(a, k) + batch_indices(b, k),
    decreases b.len(),
{
    if b.len() == 0 {
        assert(a + b =~= a);
        assert(emitted_values(a, k, j) + seq![] =~= emitted_values(a, k, j));
        assert(batch_indices(a, k) + seq![] =~= batch_indices(a, k));
    } else {
        lemma_emitted_concat(a, b.drop_last(), k, j);
        assert((a + b).drop_last() =~= a + b.drop_last());
        assert((a + b).last() == b.last());
        assert(emitted_values(a + b, k, j) =~= emitted_values(a, k, j) + emitted_values(b, k, j));
        assert(batch_indices(a + b, k) =~= batch_indices(a, k) + batch_indices(b, k));
    }
}

/// Emitting every kind from `g` on with pending rows leaves those kinds empty,
/// sends out each kind's pending values once, numbered by its counter, and
/// leaves the kinds before `g` as they were.
pub proof fn lemma_flush_from(v: L3WriterView, g: nat)
    requires
        v.wf(),
        g <= KIND_COUNT,
    ensures
        v.flush_from(g).0.wf(),
        v.flush_from(g).0.batch_size == v.batch_size,
        v.flush_from(g).0.output_dir == v.output_dir,
        forall|k: int| 0 <= k < g ==> #[trigger] v.flush_from(g).0.pending[k] == v.pending[k],
        forall|k: int| g <= k < KIND_COUNT ==> #[trigger] v.flush_from(g).0.pending[k] == empty_schema(k as nat),
        forall|k: int|
            0 <= k < KIND_COUNT ==> #[trigger] v.flush_from(g).0.file_counters[k] == v.file_counters[k]
                + if g <= k && row_count(v.pending[k]) > 0 {
                1nat
            } else {
                0nat
            },
        forall|k: nat, j: int|
            k < KIND_COUNT && 0 <= j < empty_schema(k).len() ==> #[trigger] emitted_values(
                v.flush_from(g).1,
                k,
                j,
            ) == if g <= k {
                v.pending[k as int][j].values
            } else {
                seq![]
            },
        forall|k: nat|
            k < KIND_COUNT ==> #[trigger] batch_indices(v.flush_from(g).1, k) == if g <= k && row_count(
                v.pending[k as int],
            ) > 0 {
                seq![v.file_counters[k as int]]
            } else {
                seq![]
            },
    decreases KIND_COUNT - g,
{
    if g == KIND_COUNT {
    } else if row_count(v.pending[g as int]) > 0 {
        let (next, batch) = v.emit(g, v.pending[g as int]);
        lemma_empty_schema_shaped(g);
        assert forall|k: int| 0 <= k < KIND_COUNT implies shaped(#[trigger] next.pending[k], k as nat) by {
            if k != g {
                assert(next.pending[k] == v.pending[k]);
            }
        }
        lemma_flush_from(next, g + 1);
        let (last, rest) = next.flush_from(g + 1);
        assert forall|k: nat, j: int|
            k < KIND_COUNT && 0 <= j < empty_schema(k).len() implies #[trigger] emitted_values(
            v.flush_from(g).1,
            k,
            j,
        ) == if g <= k {
            v.pending[k as int][j].values
        } else {
            seq![]
        } by {
            lemma_emitted_concat(seq![batch], rest, k, j);
            assert(seq![batch].drop_last() =~= Seq::<BatchView>::empty());
            assert(emitted_values(Seq::<BatchView>::empty(), k, j) == Seq::<int>::empty());
            assert(seq![batch].last() == batch);
            assert(emitted_values(seq![batch], k, j) =~= if batch.kind == k {
                batch.columns[j].values
            } else {
                seq![]
            });
            if k == g {
                assert(emitted_values(rest, k, j) =~= seq![]);
                assert(v.pending[k as int][j].values + seq![] =~= v.pending[k as int][j].values);
            } else {
                assert(seq![] + emitted_values(rest, k, j) =~= emitted_values(rest, k, j));
            }
        }
        assert forall|k: nat| k < KIND_COUNT implies #[trigger] batch_indices(v.flush_from(g).1, k)
            == if g <= k && row_count(v.pending[k as int]) > 0 {
            seq![v.file_counters[k as int]]
        } else {
            seq![]
        } by {
            lemma_emitted_concat(seq![batch], rest, k, 0);
            assert(seq![batch].drop_last() =~= Seq::<BatchView>::empty());
            assert(batch_indices(Seq::<BatchView>::empty(), k) == Seq::<nat>::empty());
            assert(seq![batch].last() == batch);
            if k == g {
                assert(batch_indices(seq![batch], k) =~= seq![v.file_counters[k as int]]);
                assert(seq![v.file_counters[k as int]] + seq![] =~= seq![v.file_counters[k as int]]);
            } else {
                assert(batch_indices(seq![batch], k) =~= seq![]);
                assert(seq![] + batch_indices(rest, k) =~= batch_indices(rest, k));
                if k > g {
                    assert(next.pending[k as int] == v.pending[k as int]);
                }
            }
        }
        assert forall|k: int| 0 <= k < KIND_COUNT implies #[trigger] v.flush_from(g).0.file_counters[k]
            == v.file_counters[k] + if g <= k && row_count(v.pending[k]) > 0 {
            1nat
        } else {
            0nat
        } by {
            if k != g {
                assert(next.pending[k] == v.pending[k]);
            }
        }
        assert forall|k: int| 0 <= k < g implies #[trigger] v.flush_from(g).0.pending[k] == v.pending[k] by {
        }
    } else {
        lemma_flush_from(v, g + 1);
        assert forall|k: nat, j: int|
            k < KIND_COUNT && 0 <= j < empty_schema(k).len() implies #[trigger] emitted_values(
            v.flush_from(g).1,
            k,
            j,
        ) == if g <= k {
            v.pending[k as int][j].values
        } else {
            seq![]
        } by {
            if k == g {
                assert(shaped(v.pending[k as int], k));
                assert(v.pending[k as int][j].values =~= seq![]);
            }
        }
        lemma_empty_schema_shaped(g);
        assert forall|k: int| g <= k < KIND_COUNT implies #[trigger] v.flush_from(g).0.pending[k]
            == empty_schema(k as nat) by {
            if k == g {
                assert(shaped(v.pending[k], k as nat));
                assert forall|j: int| 0 <= j < v.pending[k].len() implies v.pending[k][j]
                    == empty_schema(k as nat)[j] by {
                    assert(v.pending[k][j].values =~= seq![]);
                }
                assert(v.pending[k] =~= empty_schema(k as nat));
            }
        }
    }
}

/// What the library is for: a fresh writer that is handed the messages
/// `msgs`, in order, and then flushed, writes every value that the messages
/// bring, each exactly once and in the order of the messages, into the
/// batches of its kind; it holds nothing back; and it numbers the files of
/// each kind one after another from 0.
pub proof fn lemma_every_row_written(v: L3WriterView, msgs: Seq<ItchMessage>)
    requires
        v.wf(),
        forall|k: int| 0 <= k < KIND_COUNT ==> #[trigger] v.pending[k] == empty_schema(k as nat),
        forall|k: int| 0 <= k < KIND_COUNT ==> #[trigger] v.file_counters[k] == 0,
    ensures
        forall|k: nat, j: int|
            k < KIND_COUNT && 0 <= j < empty_schema(k).len() ==> #[trigger] emitted_values(
                add_all(v, msgs).1 + add_all(v, msgs).0.flush_from(0).1,
                k,
                j,
            ) == kind_values(msgs, k, j),
        forall|k: int|
            0 <= k < KIND_COUNT ==> #[trigger] add_all(v, msgs).0.flush_from(0).0.pending[k]
                == empty_schema(k as nat),
        forall|k: nat|
            k < KIND_COUNT ==> #[trigger] batch_indices(
                add_all(v, msgs).1 + add_all(v, msgs).0.flush_from(0).1,
                k,
            ) == consecutive(0, add_all(v, msgs).0.flush_from(0).0.file_counters[k as int]),
{
    lemma_add_all(v, msgs);
    let (w, bs) = add_all(v, msgs);
    lemma_flush_from(w, 0);
    let (last, rest) = w.flush_from(0);
    assert forall|k: nat, j: int| k < KIND_COUNT && 0 <= j < empty_schema(k).len() implies #[trigger] emitted_values(
        bs + rest,
        k,
        j,
    ) == kind_values(msgs, k, j) by {
        lemma_emitted_concat(bs, rest, k, j);
        assert(v.pending[k as int][j].values =~= seq![]);
        assert(v.pending[k as int][j].values + kind_values(msgs, k, j) =~= kind_values(msgs, k, j));
        assert(emitted_values(bs, k, j) + w.pending[k as int][j].values == kind_values(msgs, k, j));
    }
    assert forall|k: nat| k < KIND_COUNT implies #[trigger] batch_indices(bs + rest, k) == consecutive(
        0,
        last.file_counters[k as int],
    ) by {
        lemma_emitted_concat(bs, rest, k, 0);
        let n = w.file_counters[k as int];
        assert(batch_indices(bs, k) == consecutive(0, n));
        if row_count(w.pending[k as int]) > 0 {
            assert(consecutive(0, n + 1) =~= consecutive(0, n) + seq![n]);
        } else {
            assert(consecutive(0, n) + seq![] =~= consecutive(0, n));
        }
    }
}

} // verus!
