use vstd::prelude::*;

use super::l3_writer::{
    column_view,
    columns_of,
    columns_view,
    kind_name,
    kind_of,
    of_kind,
    replace_at,
    rows_to_columns,
    Column,
    ColumnData,
    ColumnView,
    KIND_COUNT,
};
use crate::schema::itchformat::ItchMessage;

verus! {

/// Number of message groups: one per file kind, and one for unknown messages.
pub const GROUP_COUNT: usize = 16;

/// The messages of one group that go out together, and the index that numbers
/// the file among those of the group.
#[derive(Debug, Clone, PartialEq, Eq)]
pub struct MessageBatch {
    pub group: usize,
    pub file_index: usize,
    pub messages: Vec<ItchMessage>,
}

/// A message batch as a mathematical value.
#[verifier::ext_equal]
pub struct MessageBatchView {
    pub group: nat,
    pub file_index: nat,
    pub messages: Seq<ItchMessage>,
}

impl MessageBatch {
    pub open spec fn view(self) -> MessageBatchView {
        MessageBatchView {
            group: self.group as nat,
            file_index: self.file_index as nat,
            messages: self.messages@,
        }
    }
}

/// What a [`ParquetWriter`] holds: its settings, how many files of each group
/// it has emitted, and the pending messages of each group.
#[verifier::ext_equal]
pub struct ParquetWriterView {
    pub batch_size: nat,
    pub output_dir: Seq<char>,
    pub file_counters: Seq<nat>,
    pub batches: Seq<Seq<ItchMessage>>,
}

/// The group of `msg`: its file kind, or the last group for an unknown message.
pub open spec fn group_of(msg: ItchMessage) -> nat {
    match kind_of(msg) {
        Some(k) => k,
        None => KIND_COUNT as nat,
    }
}

/// Each message goes to the group of its own kind: the files of the group of
/// a message that is not unknown carry the message's name, and unknown
/// messages, and only they, make up the last group.
pub proof fn lemma_group_is_own_kind(msg: ItchMessage)
    ensures
        group_of(msg) < GROUP_COUNT,
        group_of(msg) == KIND_COUNT <==> msg is Unknown,
        msg !is Unknown ==> kind_name(group_of(msg)) == msg.spec_name(),
{
}

/// The batches `bs` as mathematical values.
pub open spec fn message_batches_view(bs: Seq<MessageBatch>) -> Seq<MessageBatchView> {
    bs.map_values(|b: MessageBatch| b.view())
}

/// The batch `b` as a mathematical value, if there is one.
pub open spec fn opt_message_batch_view(b: Option<MessageBatch>) -> Option<MessageBatchView> {
    match b {
        Some(b) => Some(b.view()),
        None => None,
    }
}

impl ParquetWriterView {
    /// One counter and one list of pending messages per group, each message in
    /// the list of its own group.
    pub open spec fn wf(self) -> bool {
        &&& self.file_counters.len() == GROUP_COUNT
        &&& self.batches.len() == GROUP_COUNT
        &&& forall|g: int, i: int|
            0 <= g < GROUP_COUNT && 0 <= i < self.batches[g].len() ==> group_of(
                #[trigger] self.batches[g][i],
            ) == g
    }

    /// No group has emitted so many files that its counter cannot count one more.
    pub open spec fn counters_below_max(self) -> bool {
        forall|g: int| 0 <= g < self.file_counters.len() ==> #[trigger] self.file_counters[g] < usize::MAX
    }

    /// The messages `msgs` of group `g` go out as a batch numbered by the
    /// group's counter, and the group starts over.
    pub open spec fn emit(self, g: nat, msgs: Seq<ItchMessage>) -> (
        ParquetWriterView,
        MessageBatchView,
    ) {
        (
            ParquetWriterView {
                batch_size: self.batch_size,
                output_dir: self.output_dir,
                file_counters: self.file_counters.update(g as int, self.file_counters[g as int] + 1),
                batches: self.batches.update(g as int, seq![]),
            },
            MessageBatchView { group: g, file_index: self.file_counters[g as int], messages: msgs },
        )
    }

    /// The writer after `msg`: it joins the messages of its group, and once
    /// they number `batch_size` or more they go out as a batch.
    pub open spec fn add(self, msg: ItchMessage) -> (ParquetWriterView, Option<MessageBatchView>) {
        let g = group_of(msg);
        let msgs = self.batches[g as int].push(msg);
        if msgs.len() >= self.batch_size {
            let (next, batch) = self.emit(g, msgs);
            (next, Some(batch))
        } else {
            (
                ParquetWriterView {
                    batch_size: self.batch_size,
                    output_dir: self.output_dir,
                    file_counters: self.file_counters,
                    batches: self.batches.update(g as int, msgs),
                },
                None,
            )
        }
    }

    /// The writer and the batches after every group from `g` on with pending
    /// messages has been emitted, in the order of the groups.
    pub open spec fn flush_from(self, g: nat) -> (ParquetWriterView, Seq<MessageBatchView>)
        decreases GROUP_COUNT - g,
    {
        if g >= GROUP_COUNT {
            (self, seq![])
        } else if self.batches[g as int].len() > 0 {
            let (next, batch) = self.emit(g, self.batches[g as int]);
            let (last, rest) = next.flush_from(g + 1);
            (last, seq![batch] + rest)
        } else {
            self.flush_from(g + 1)
        }
    }
}

/// Returns the group of `msg`.
pub fn group_index(msg: &ItchMessage) -> (r: usize)
    ensures
        r == group_of(*msg),
{
    match msg {
        ItchMessage::SystemEvent(_) => 0,
        ItchMessage::StockDirectory(_) => 1,
        ItchMessage::AddOrder(_) => 2,
        ItchMessage::OrderExecuted(_) => 3,
        ItchMessage::OrderCancel(_) => 4,
        ItchMessage::AddOrderMPID(_) => 5,
        ItchMessage::OrderExecutedWithPrice(_) => 6,
        ItchMessage::CrossTrade(_) => 7,
        ItchMessage::Trade(_) => 8,
        ItchMessage::OrderDelete(_) => 9,
        ItchMessage::OrderReplace(_) => 10,
        ItchMessage::StockTradingAction(_) => 11,
        ItchMessage::OrderPriorityUpdateY(_) => 12,
        ItchMessage::NetOrderImbalanceIndicator(_) => 13,
        ItchMessage::MarketParticipantPosition(_) => 14,
        ItchMessage::Unknown(_) => 15,
    }
}

/// Groups parsed messages by kind and hands each group out as a batch once it
/// holds `batch_size` messages.
pub struct ParquetWriter {
    batch_size: usize,
    output_dir: String,
    batches: Vec<Vec<ItchMessage>>,
    file_counters: Vec<usize>,
}

impl View for ParquetWriter {
    type V = ParquetWriterView;

    closed spec fn view(&self) -> ParquetWriterView {
        ParquetWriterView {
            batch_size: self.batch_size as nat,
            output_dir: self.output_dir@,
            file_counters: self.file_counters@.map_values(|c: usize| c as nat),
            batches: self.batches@.map_values(|b: Vec<ItchMessage>| b@),
        }
    }
}

impl ParquetWriter {
    #[verifier::type_invariant]
    spec fn inv(self) -> bool {
        &&& self.file_counters@.len() == GROUP_COUNT
        &&& self.batches@.len() == GROUP_COUNT
        &&& forall|g: int, i: int|
            0 <= g < GROUP_COUNT && 0 <= i < self.batches@[g]@.len() ==> group_of(
                #[trigger] self.batches@[g]@[i],
            ) == g
    }

    /// The writer's invariant, seen through its view.
    proof fn lemma_view_wf(&self)
        requires
            self.inv(),
        ensures
            self@.wf(),
    {
        assert forall|g: int, i: int|
            0 <= g < GROUP_COUNT && 0 <= i < self@.batches[g].len() implies group_of(
            #[trigger] self@.batches[g][i],
        ) == g by {
            assert(self@.batches[g] == self.batches@[g]@);
        }
    }

    /// Creates a writer with no pending messages that emits a batch once a
    /// group holds `batch_size` messages, into files under `output_dir`.
    pub fn new(output_dir: String, batch_size: usize) -> (r: Self)
        ensures
            r@.wf(),
            r@.batch_size == batch_size,
            r@.output_dir == output_dir@,
            r@.file_counters == Seq::new(GROUP_COUNT as nat, |g: int| 0nat),
            r@.batches == Seq::new(GROUP_COUNT as nat, |g: int| Seq::<ItchMessage>::empty()),
    {
        let mut batches: Vec<Vec<ItchMessage>> = Vec::new();
        let mut file_counters: Vec<usize> = Vec::new();
        let mut g: usize = 0;
        while g < GROUP_COUNT
            invariant
                g <= GROUP_COUNT,
                batches@.len() == g,
                file_counters@.len() == g,
                forall|i: int| 0 <= i < g ==> file_counters@[i] == 0,
                forall|i: int| 0 <= i < g ==> (#[trigger] batches@[i])@ == Seq::<ItchMessage>::empty(),
            decreases GROUP_COUNT - g,
        {
            batches.push(Vec::new());
            file_counters.push(0);
            g = g + 1;
        }
        let r = ParquetWriter { batch_size, output_dir, batches, file_counters };
        assert(r@.file_counters =~= Seq::new(GROUP_COUNT as nat, |g: int| 0nat));
        assert(r@.batches =~= Seq::new(GROUP_COUNT as nat, |g: int| Seq::<ItchMessage>::empty()));
        r
    }

    /// Returns the directory that the writer's files go to.
    pub fn output_dir(&self) -> (r: &str)
        ensures
            r@ == self@.output_dir,
    {
        self.output_dir.as_str()
    }

    /// Returns how many files of group `g` have been emitted.
    pub fn file_counter(&self, g: usize) -> (r: usize)
        requires
            g < GROUP_COUNT,
        ensures
            r == self@.file_counters[g as int],
    {
        proof {
            use_type_invariant(self);
        }
        self.file_counters[g]
    }

    /// Emits the pending messages of group `g` as a batch.
    fn take_batch(&mut self, g: usize, messages: Vec<ItchMessage>) -> (b: MessageBatch)
        requires
            g < GROUP_COUNT,
            old(self)@.batches[g as int] == Seq::<ItchMessage>::empty(),
            old(self)@.file_counters[g as int] < usize::MAX,
        ensures
            final(self)@ == old(self)@.emit(g as nat, messages@).0,
            b.view() == old(self)@.emit(g as nat, messages@).1,
        no_unwind
    {
        proof {
            use_type_invariant(&*self);
        }
        let ghost v = self@;
        let counter = self.file_counters[g];
        self.file_counters[g] = counter + 1;
        let b = MessageBatch { group: g, file_index: counter, messages };
        let ghost (next, batch) = v.emit(g as nat, messages@);
        assert(self@.file_counters =~= next.file_counters);
        assert(self@.batches =~= next.batches);
        assert(self@ =~= next);
        assert(b.view() =~= batch);
        b
    }

    /// Adds `msg` to the messages of its group and returns them as a batch
    /// once they number `batch_size`.
    pub fn add_message(&mut self, msg: ItchMessage) -> (r: Option<MessageBatch>)
        requires
            old(self)@.counters_below_max(),
        ensures
            final(self)@.wf(),
            final(self)@ == old(self)@.add(msg).0,
            opt_message_batch_view(r) == old(self)@.add(msg).1,
    {
        proof {
            use_type_invariant(&*self);
        }
        let ghost v = self@;
        let g = group_index(&msg);
        let mut pending = replace_at(&mut self.batches, g, Vec::new());
        pending.push(msg);
        assert(pending@ == v.batches[g as int].push(msg));
        if pending.len() >= self.batch_size {
            assert(self@ =~= ParquetWriterView { batches: v.batches.update(g as int, seq![]), ..v });
            Some(self.take_batch(g, pending))
        } else {
            replace_at(&mut self.batches, g, pending);
            assert(self@.batches =~= v.batches.update(g as int, v.batches[g as int].push(msg)));
            None
        }
    }

    /// Emits every group with pending messages as a batch, in the order of the
    /// groups.
    pub fn flush_remaining(&mut self) -> (r: Vec<MessageBatch>)
        requires
            old(self)@.counters_below_max(),
        ensures
            final(self)@.wf(),
            final(self)@ == old(self)@.flush_from(0).0,
            message_batches_view(r@) == old(self)@.flush_from(0).1,
    {
        proof {
            use_type_invariant(&*self);
            self.lemma_view_wf();
        }
        let ghost v = self@;
        let mut out: Vec<MessageBatch> = Vec::new();
        let mut g: usize = 0;
        while g < GROUP_COUNT
            invariant
                g <= GROUP_COUNT,
                self@.wf(),
                forall|i: int| g <= i < GROUP_COUNT ==> #[trigger] self@.file_counters[i] < usize::MAX,
                v.flush_from(0).0 == self@.flush_from(g as nat).0,
                v.flush_from(0).1 == message_batches_view(out@) + self@.flush_from(g as nat).1,
            decreases GROUP_COUNT - g,
        {
            proof {
                use_type_invariant(&*self);
            }
            if self.batches[g].len() > 0 {
                let ghost before = self@;
                let ghost old_out = out@;
                let messages = replace_at(&mut self.batches, g, Vec::new());
                assert(self@ =~= ParquetWriterView {
                    batches: before.batches.update(g as int, seq![]),
                    ..before
                });
                let b = self.take_batch(g, messages);
                proof {
                    let (next, batch) = before.emit(g as nat, before.batches[g as int]);
                    assert(self@.batches =~= next.batches);
                    assert(self@ =~= next);
                    assert(b.view() == batch);
                    use_type_invariant(&*self);
                    self.lemma_view_wf();
                }
                out.push(b);
                assert(message_batches_view(out@) =~= message_batches_view(old_out).push(b.view()));
                assert(message_batches_view(out@) + self@.flush_from((g + 1) as nat).1
                    =~= message_batches_view(old_out) + before.flush_from(g as nat).1);
            }
            g = g + 1;
        }
        out
    }
}

/// The text that `String::from_utf8_lossy` makes of `bytes`.
pub uninterp spec fn utf8_lossy(bytes: Seq<u8>) -> Seq<char>;

/// Decodes `bytes` as UTF-8 with `String::from_utf8_lossy`, which puts U+FFFD
/// in place of each invalid sequence. The contract names the result; of it, it
/// states only that ASCII bytes decode each to the character of the same code.
#[verifier::external_body]
fn text_of_bytes(bytes: &[u8; 8]) -> (r: String)
    ensures
        r@ == utf8_lossy(bytes@),
        (forall|i: int| 0 <= i < 8 ==> #[trigger] bytes@[i] < 0x80) ==> r@ == bytes@.map_values(
            |b: u8| b as char,
        ),
{
    String::from_utf8_lossy(bytes).into_owned()
}

/// The values of one column of a Parquet file.
#[derive(Debug, Clone, PartialEq, Eq)]
pub enum ParquetData {
    Int32(Vec<i32>),
    Int64(Vec<i64>),
    Utf8(Vec<String>),
}

/// A named column of a Parquet file.
#[derive(Debug, Clone, PartialEq, Eq)]
pub struct ParquetColumn {
    pub name: &'static str,
    pub data: ParquetData,
}

/// A Parquet column as a mathematical value.
#[verifier::ext_equal]
pub enum ParquetColumnView {
    Numbers(ColumnView),
    Texts(Seq<char>, Seq<Seq<char>>),
}

pub open spec fn parquet_column_view(c: ParquetColumn) -> ParquetColumnView {
    match c.data {
        ParquetData::Int32(v) => ParquetColumnView::Numbers(
            ColumnView { name: c.name@, is_i64: false, values: v@.map_values(|x: i32| x as int) },
        ),
        ParquetData::Int64(v) => ParquetColumnView::Numbers(
            ColumnView { name: c.name@, is_i64: true, values: v@.map_values(|x: i64| x as int) },
        ),
        ParquetData::Utf8(v) => ParquetColumnView::Texts(c.name@, v@.map_values(|t: String| t@)),
    }
}

pub open spec fn parquet_columns_view(cols: Seq<ParquetColumn>) -> Seq<ParquetColumnView> {
    cols.map_values(|c: ParquetColumn| parquet_column_view(c))
}

/// The symbol bytes of a Stock Directory message.
pub open spec fn symbol_bytes(m: ItchMessage) -> Seq<u8> {
    match m {
        ItchMessage::StockDirectory(d) => d.symbol@,
        _ => seq![],
    }
}

/// The Parquet columns of the messages of `msgs` that belong to group `g`:
/// those of the column files of the kind, where a Stock Directory's raw symbol
/// column gives way to the symbol's text. Messages of other groups have no row.
pub open spec fn parquet_schema_columns(g: nat, msgs: Seq<ItchMessage>) -> Seq<ParquetColumnView> {
    let own = of_kind(msgs, g);
    let numbers = rows_to_columns(g, own).map_values(|c: ColumnView| ParquetColumnView::Numbers(c));
    if g == 1 {
        numbers.take(3).push(
            ParquetColumnView::Texts(
                "symbol"@,
                Seq::new(own.len(), |i: int| utf8_lossy(symbol_bytes(own[i]))),
            ),
        )
    } else {
        numbers
    }
}

/// Returns the numeric column `c` as a column of a Parquet file.
fn to_parquet_column(c: Column) -> (r: ParquetColumn)
    ensures
        parquet_column_view(r) == ParquetColumnView::Numbers(column_view(c)),
{
    match c.data {
        ColumnData::Int32(v) => ParquetColumn { name: c.name, data: ParquetData::Int32(v) },
        ColumnData::Int64(v) => ParquetColumn { name: c.name, data: ParquetData::Int64(v) },
    }
}

/// Returns the text of the symbol of each Stock Directory message of `msgs`,
/// in order; the other messages are skipped.
fn symbol_texts(msgs: &Vec<ItchMessage>) -> (r: Vec<String>)
    ensures
        r@.map_values(|t: String| t@) == Seq::new(
            of_kind(msgs@, 1).len(),
            |i: int| utf8_lossy(symbol_bytes(of_kind(msgs@, 1)[i])),
        ),
{
    let mut out: Vec<String> = Vec::new();
    let mut i: usize = 0;
    while i < msgs.len()
        invariant
            i <= msgs@.len(),
            out@.len() == of_kind(msgs@.take(i as int), 1).len(),
            forall|j: int|
                0 <= j < out@.len() ==> (#[trigger] out@[j])@ == utf8_lossy(
                    symbol_bytes(of_kind(msgs@.take(i as int), 1)[j]),
                ),
        decreases msgs@.len() - i,
    {
        let ghost before = of_kind(msgs@.take(i as int), 1);
        assert(msgs@.take(i + 1).drop_last() =~= msgs@.take(i as int));
        assert(msgs@.take(i + 1).last() == msgs@[i as int]);
        match &msgs[i] {
            ItchMessage::StockDirectory(d) => {
                let text = text_of_bytes(&d.symbol);
                out.push(text);
                assert(of_kind(msgs@.take(i + 1), 1) == before.push(msgs@[i as int]));
            },
            _ => {
                assert(of_kind(msgs@.take(i + 1), 1) == before);
            },
        }
        i = i + 1;
    }
    assert(msgs@.take(msgs@.len() as int) =~= msgs@);
    assert(out@.map_values(|t: String| t@) =~= Seq::new(
        of_kind(msgs@, 1).len(),
        |i: int| utf8_lossy(symbol_bytes(of_kind(msgs@, 1)[i])),
    ));
    out
}

impl MessageBatch {
    /// Returns the columns of the Parquet file of this batch: one row per
    /// message of the batch's group, in order, other messages skipped. A batch
    /// of unknown messages has none.
    pub fn parquet_columns(&self) -> (r: Option<Vec<ParquetColumn>>)
        ensures
            r is Some <==> self.group < KIND_COUNT,
            r matches Some(cols) ==> parquet_columns_view(cols@) == parquet_schema_columns(
                self.group as nat,
                self.messages@,
            ),
    {
        if self.group >= KIND_COUNT {
            return None;
        }
        let mut cols = columns_of(self.group, &self.messages);
        let ghost numbers = columns_view(cols@);
        let n: usize = if self.group == 1 { 3 } else { cols.len() };
        let mut out: Vec<ParquetColumn> = Vec::new();
        let mut j: usize = 0;
        while j < n
            invariant
                n <= numbers.len(),
                j <= n,
                cols@.len() == numbers.len() - j,
                forall|i: int| 0 <= i < cols@.len() ==> column_view(#[trigger] cols@[i]) == numbers[i + j],
                out@.len() == j,
                forall|i: int|
                    0 <= i < j ==> parquet_column_view(#[trigger] out@[i]) == ParquetColumnView::Numbers(
                        numbers[i],
                    ),
            decreases n - j,
        {
            let c = cols.remove(0);
            assert(column_view(c) == numbers[j as int]);
            out.push(to_parquet_column(c));
            j = j + 1;
        }
        let ghost schema = parquet_schema_columns(self.group as nat, self.messages@);
        if self.group == 1 {
            let texts = symbol_texts(&self.messages);
            out.push(ParquetColumn { name: "symbol", data: ParquetData::Utf8(texts) });
        }
        assert(parquet_columns_view(out@) =~= schema);
        Some(out)
    }
}

} // verus!
