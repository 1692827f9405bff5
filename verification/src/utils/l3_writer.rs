use vstd::prelude::*;

use crate::parser::common::be_value;
use crate::schema::itchformat::ItchMessage;

verus! {

/// Number of message kinds that get their own column files.
pub const KIND_COUNT: usize = 15;

/// One value of a row, typed as the column it goes to.
#[derive(Debug, Clone, Copy, PartialEq, Eq)]
pub enum Cell {
    Int32(i32),
    Int64(i64),
}

/// The values of one column.
#[derive(Debug, Clone, PartialEq, Eq)]
pub enum ColumnData {
    Int32(Vec<i32>),
    Int64(Vec<i64>),
}

/// A named column.
#[derive(Debug, Clone, PartialEq, Eq)]
pub struct Column {
    pub name: &'static str,
    pub data: ColumnData,
}

/// The columns of one output file: the pending rows of one message kind, and
/// the index that numbers the file among those of its kind.
#[derive(Debug, Clone, PartialEq, Eq)]
pub struct ColumnBatch {
    pub kind: usize,
    pub file_index: usize,
    pub columns: Vec<Column>,
}

/// A column as a mathematical value.
#[verifier::ext_equal]
pub struct ColumnView {
    pub name: Seq<char>,
    pub is_i64: bool,
    pub values: Seq<int>,
}

/// A batch as a mathematical value.
#[verifier::ext_equal]
pub struct BatchView {
    pub kind: nat,
    pub file_index: nat,
    pub columns: Seq<ColumnView>,
}

/// What an [`L3Writer`] holds: its settings, how many files of each kind it
/// has emitted, and the pending columns of each kind.
#[verifier::ext_equal]
pub struct L3WriterView {
    pub batch_size: nat,
    pub output_dir: Seq<char>,
    pub file_counters: Seq<nat>,
    pub pending: Seq<Seq<ColumnView>>,
}

pub open spec fn cell_value(c: Cell) -> int {
    match c {
        Cell::Int32(x) => x as int,
        Cell::Int64(x) => x as int,
    }
}

pub open spec fn cell_is_i64(c: Cell) -> bool {
    c is Int64
}

pub open spec fn column_view(c: Column) -> ColumnView {
    match c.data {
        ColumnData::Int32(v) => ColumnView {
            name: c.name@,
            is_i64: false,
            values: v@.map_values(|x: i32| x as int),
        },
        ColumnData::Int64(v) => ColumnView {
            name: c.name@,
            is_i64: true,
            values: v@.map_values(|x: i64| x as int),
        },
    }
}

pub open spec fn columns_view(cols: Seq<Column>) -> Seq<ColumnView> {
    cols.map_values(|c: Column| column_view(c))
}

impl ColumnBatch {
    pub open spec fn view(self) -> BatchView {
        BatchView {
            kind: self.kind as nat,
            file_index: self.file_index as nat,
            columns: columns_view(self.columns@),
        }
    }
}

/// The integer that the bytes `s` encode, least significant byte first.
pub open spec fn le_value(s: Seq<u8>) -> nat {
    be_value(s.reverse())
}

/// Little-endian order: the first byte is the least significant one, and the
/// bytes after it count 256 times as much.
pub proof fn lemma_le_value_first_byte(s: Seq<u8>)
    requires
        s.len() > 0,
    ensures
        le_value(s) == (s[0] as nat) + 256 * le_value(s.drop_first()),
{
    assert(s.reverse().drop_last() =~= s.drop_first().reverse());
    assert(s.reverse().last() == s[0]);
}

/// Reads eight bytes as a little-endian `i64`.
pub fn le_i64(bytes: [u8; 8]) -> (r: i64)
    ensures
        r == (le_value(bytes@) as i64),
{
    let mut acc: u64 = 0;
    let mut i: usize = 8;
    while i > 0
        invariant
            i <= 8,
            acc == be_value(bytes@.subrange(i as int, 8).reverse()),
        decreases i,
    {
        let ghost done = bytes@.subrange(i as int, 8).reverse();
        i = i - 1;
        let ghost next = bytes@.subrange(i as int, 8).reverse();
        assert(next.drop_last() =~= done);
        assert(next.last() == bytes@[i as int]);
        proof {
            crate::parser::common::lemma_be_value_bound(done);
            crate::parser::common::lemma_pow256_monotone((8 - i) as nat, 8);
            crate::parser::common::lemma_pow256_eight();
        }
        acc = acc * 256 + bytes[i] as u64;
    }
    assert(bytes@.subrange(0, 8) =~= bytes@);
    acc as i64
}

/// The file kind that `msg` is written under, in the order of the writer's
/// file counters; unknown messages are not written.
pub open spec fn kind_of(msg: ItchMessage) -> Option<nat> {
    match msg {
        ItchMessage::SystemEvent(_) => Some(0),
        ItchMessage::StockDirectory(_) => Some(1),
        ItchMessage::AddOrder(_) => Some(2),
        ItchMessage::OrderExecuted(_) => Some(3),
        ItchMessage::OrderCancel(_) => Some(4),
        ItchMessage::AddOrderMPID(_) => Some(5),
        ItchMessage::OrderExecutedWithPrice(_) => Some(6),
        ItchMessage::CrossTrade(_) => Some(7),
        ItchMessage::Trade(_) => Some(8),
        ItchMessage::OrderDelete(_) => Some(9),
        ItchMessage::OrderReplace(_) => Some(10),
        ItchMessage::StockTradingAction(_) => Some(11),
        ItchMessage::OrderPriorityUpdateY(_) => Some(12),
        ItchMessage::NetOrderImbalanceIndicator(_) => Some(13),
        ItchMessage::MarketParticipantPosition(_) => Some(14),
        ItchMessage::Unknown(_) => None,
    }
}

/// The row that `msg` adds to the columns of its kind.
pub open spec fn row_of(msg: ItchMessage) -> Seq<Cell> {
    match msg {
        ItchMessage::SystemEvent(m) => seq![
            Cell::Int64(m.timestamp as i64),
            Cell::Int32(m.event_code as i32),
        ],
        ItchMessage::StockDirectory(m) => seq![
            Cell::Int32(m.stock_locate as i32),
            Cell::Int32(m.tracking_number as i32),
            Cell::Int64(m.timestamp as i64),
            Cell::Int64(le_value(m.symbol@) as i64),
        ],
        ItchMessage::AddOrder(m) => seq![
            Cell::Int32(m.stock_locate as i32),
            Cell::Int64(m.timestamp as i64),
            Cell::Int32(m.price as i32),
            Cell::Int32(m.shares as i32),
        ],
        ItchMessage::OrderExecuted(m) => seq![
            Cell::Int32(m.stock_locate as i32),
            Cell::Int64(m.timestamp as i64),
            Cell::Int32(m.executed_shares as i32),
        ],
        ItchMessage::OrderCancel(m) => seq![
            Cell::Int32(m.stock_locate as i32),
            Cell::Int64(m.timestamp as i64),
        ],
        ItchMessage::AddOrderMPID(m) => seq![
            Cell::Int32(m.stock_locate as i32),
            Cell::Int64(m.timestamp as i64),
        ],
        ItchMessage::OrderExecutedWithPrice(m) => seq![
            Cell::Int32(m.stock_locate as i32),
            Cell::Int64(m.timestamp as i64),
            Cell::Int32(m.execution_price as i32),
        ],
        ItchMessage::CrossTrade(m) => seq![
            Cell::Int32(m.stock_locate as i32),
            Cell::Int64(m.timestamp as i64),
        ],
        ItchMessage::Trade(m) => seq![
            Cell::Int32(m.stock_locate as i32),
            Cell::Int64(m.timestamp as i64),
        ],
        ItchMessage::OrderDelete(m) => seq![
            Cell::Int32(m.stock_locate as i32),
            Cell::Int64(m.timestamp as i64),
        ],
        ItchMessage::OrderReplace(m) => seq![
            Cell::Int32(m.stock_locate as i32),
            Cell::Int64(m.timestamp as i64),
        ],
        ItchMessage::StockTradingAction(m) => seq![
            Cell::Int32(m.stock_locate as i32),
            Cell::Int64(m.timestamp as i64),
        ],
        ItchMessage::OrderPriorityUpdateY(m) => seq![
            Cell::Int32(m.stock_locate as i32),
            Cell::Int64(m.timestamp as i64),
        ],
        ItchMessage::NetOrderImbalanceIndicator(m) => seq![
            Cell::Int32(m.stock_locate as i32),
            Cell::Int64(m.timestamp as i64),
            Cell::Int64(m.imbalance_shares as i64),
        ],
        ItchMessage::MarketParticipantPosition(m) => seq![
            Cell::Int32(m.stock_locate as i32),
            Cell::Int64(m.timestamp as i64),
        ],
        ItchMessage::Unknown(_) => seq![],
    }
}

/// The name that files of kind `k` carry.
pub open spec fn kind_name(k: nat) -> Seq<char> {
    if k == 0 {
        "SystemEvent"@
    } else if k == 1 {
        "StockDirectory"@
    } else if k == 2 {
        "AddOrder"@
    } else if k == 3 {
        "OrderExecuted"@
    } else if k == 4 {
        "OrderCancel"@
    } else if k == 5 {
        "AddOrderMPID"@
    } else if k == 6 {
        "OrderExecutedWithPrice"@
    } else if k == 7 {
        "CrossTrade"@
    } else if k == 8 {
        "Trade"@
    } else if k == 9 {
        "OrderDelete"@
    } else if k == 10 {
        "OrderReplace"@
    } else if k == 11 {
        "StockTradingAction"@
    } else if k == 12 {
        "OrderPriorityUpdateY"@
    } else if k == 13 {
        "NetOrderImbalanceIndicator"@
    } else {
        "MarketParticipantPosition"@
    }
}

/// The files that a message goes to carry the message's name.
pub proof fn lemma_kind_name_is_message_name(msg: ItchMessage)
    requires
        kind_of(msg) is Some,
    ensures
        kind_name(kind_of(msg)->0) == msg.spec_name(),
{
}

/// The value that a file column called `name` takes from `msg`, where `msg`
/// has a field of that name: the field, cast to the column's type. The
/// `price` of an execution is its execution price, and `symbol_raw_i64` is the
/// symbol's 8 bytes read as a little-endian integer.
pub open spec fn named_field(msg: ItchMessage, name: Seq<char>) -> Option<int> {
    if name == "stock_locate"@ {
        match msg.spec_stock_locate() {
            Some(x) => Some((x as i32) as int),
            None => None,
        }
    } else if name == "tracking_number"@ {
        match msg.spec_tracking_number() {
            Some(x) => Some((x as i32) as int),
            None => None,
        }
    } else if name == "timestamp"@ {
        match msg.spec_timestamp() {
            Some(x) => Some((x as i64) as int),
            None => None,
        }
    } else if name == "event_code"@ {
        match msg {
            ItchMessage::SystemEvent(m) => Some((m.event_code as i32) as int),
            _ => None,
        }
    } else if name == "symbol_raw_i64"@ {
        match msg {
            ItchMessage::StockDirectory(m) => Some((le_value(m.symbol@) as i64) as int),
            _ => None,
        }
    } else if name == "price"@ {
        match msg {
            ItchMessage::AddOrder(m) => Some((m.price as i32) as int),
            ItchMessage::OrderExecutedWithPrice(m) => Some((m.execution_price as i32) as int),
            _ => None,
        }
    } else if name == "shares"@ {
        match msg {
            ItchMessage::AddOrder(m) => Some((m.shares as i32) as int),
            _ => None,
        }
    } else if name == "executed_shares"@ {
        match msg {
            ItchMessage::OrderExecuted(m) => Some((m.executed_shares as i32) as int),
            _ => None,
        }
    } else if name == "imbalance_shares"@ {
        match msg {
            ItchMessage::NetOrderImbalanceIndicator(m) => Some((m.imbalance_shares as i64) as int),
            _ => None,
        }
    } else {
        None
    }
}

/// Each column of a message's row holds the message's field of the column's
/// name: the row that `msg` adds has one value per column of its kind, and the
/// value under the column called `n` is `msg`'s field `n`, cast to the
/// column's type.
pub proof fn lemma_row_by_column_name(msg: ItchMessage)
    requires
        kind_of(msg) is Some,
    ensures
        row_of(msg).len() == empty_schema(kind_of(msg)->0).len(),
        forall|j: int|
            0 <= j < row_of(msg).len() ==> named_field(
                msg,
                #[trigger] empty_schema(kind_of(msg)->0)[j].name,
            ) == Some(cell_value(row_of(msg)[j])),
{
    reveal_strlit("stock_locate");
    reveal_strlit("tracking_number");
    reveal_strlit("timestamp");
    reveal_strlit("event_code");
    reveal_strlit("symbol_raw_i64");
    reveal_strlit("price");
    reveal_strlit("shares");
    reveal_strlit("executed_shares");
    reveal_strlit("imbalance_shares");
    let k = kind_of(msg)->0;
    let schema = empty_schema(k);
    let row = row_of(msg);
    assert(row.len() == schema.len());
    assert("stock_locate"@.len() == 12);
    assert("tracking_number"@.len() == 15);
    assert("timestamp"@.len() == 9);
    assert("event_code"@.len() == 10);
    assert("symbol_raw_i64"@.len() == 14);
    assert("price"@.len() == 5);
    assert("shares"@.len() == 6);
    assert("executed_shares"@.len() == 15);
    assert("imbalance_shares"@.len() == 16);
    assert("tracking_number"@[0] != "executed_shares"@[0]);
    assert forall|j: int| 0 <= j < row.len() implies named_field(msg, #[trigger] schema[j].name)
        == Some(cell_value(row[j])) by {
        assert(j == 0 || j == 1 || j == 2 || j == 3);
    }
}

/// The empty columns of kind `k`: their names and types.
pub open spec fn empty_schema(k: nat) -> Seq<ColumnView> {
    let i32c = |n: Seq<char>| ColumnView { name: n, is_i64: false, values: seq![] };
    let i64c = |n: Seq<char>| ColumnView { name: n, is_i64: true, values: seq![] };
    if k == 0 {
        seq![i64c("timestamp"@), i32c("event_code"@)]
    } else if k == 1 {
        seq![
            i32c("stock_locate"@),
            i32c("tracking_number"@),
            i64c("timestamp"@),
            i64c("symbol_raw_i64"@),
        ]
    } else if k == 2 {
        seq![i32c("stock_locate"@), i64c("timestamp"@), i32c("price"@), i32c("shares"@)]
    } else if k == 3 {
        seq![i32c("stock_locate"@), i64c("timestamp"@), i32c("executed_shares"@)]
    } else if k == 6 {
        seq![i32c("stock_locate"@), i64c("timestamp"@), i32c("price"@)]
    } else if k == 13 {
        seq![i32c("stock_locate"@), i64c("timestamp"@), i64c("imbalance_shares"@)]
    } else {
        seq![i32c("stock_locate"@), i64c("timestamp"@)]
    }
}

/// How many rows the columns `cols` hold.
pub open spec fn row_count(cols: Seq<ColumnView>) -> nat {
    if cols.len() == 0 {
        0
    } else {
        cols[0].values.len()
    }
}

/// `cols` have the names and types of kind `k`, and the same length.
pub open spec fn shaped(cols: Seq<ColumnView>, k: nat) -> bool {
    let schema = empty_schema(k);
    &&& cols.len() == schema.len()
    &&& forall|j: int|
        0 <= j < cols.len() ==> (#[trigger] cols[j]).name == schema[j].name && cols[j].is_i64
            == schema[j].is_i64 && cols[j].values.len() == row_count(cols)
}

/// `cols` with the row `row` appended.
pub open spec fn push_row(cols: Seq<ColumnView>, row: Seq<Cell>) -> Seq<ColumnView> {
    Seq::new(
        cols.len(),
        |j: int|
            ColumnView {
                name: cols[j].name,
                is_i64: cols[j].is_i64,
                values: cols[j].values.push(cell_value(row[j])),
            },
    )
}

impl L3WriterView {
    /// One counter and one set of columns, shaped by its kind, per kind.
    pub open spec fn wf(self) -> bool {
        &&& self.file_counters.len() == KIND_COUNT
        &&& self.pending.len() == KIND_COUNT
        &&& forall|k: int| 0 <= k < KIND_COUNT ==> shaped(#[trigger] self.pending[k], k as nat)
    }

    /// No kind has emitted so many files that its counter cannot count one more.
    pub open spec fn counters_below_max(self) -> bool {
        forall|k: int| 0 <= k < self.file_counters.len() ==> #[trigger] self.file_counters[k] < usize::MAX
    }

    /// The pending columns of kind `k` go out as a batch numbered by the
    /// kind's counter, and the kind starts over.
    pub open spec fn emit(self, k: nat, cols: Seq<ColumnView>) -> (L3WriterView, BatchView) {
        (
            L3WriterView {
                batch_size: self.batch_size,
                output_dir: self.output_dir,
                file_counters: self.file_counters.update(k as int, self.file_counters[k as int] + 1),
                pending: self.pending.update(k as int, empty_schema(k)),
            },
            BatchView { kind: k, file_index: self.file_counters[k as int], columns: cols },
        )
    }

    /// The writer after `msg`: its row joins the columns of its kind, and once
    /// they hold `batch_size` rows or more they go out as a batch.
    pub open spec fn add(self, msg: ItchMessage) -> (L3WriterView, Option<BatchView>) {
        match kind_of(msg) {
            None => (self, None),
            Some(k) => {
                let cols = push_row(self.pending[k as int], row_of(msg));
                if row_count(cols) >= self.batch_size {
                    let (next, batch) = self.emit(k, cols);
                    (next, Some(batch))
                } else {
                    (
                        L3WriterView {
                            batch_size: self.batch_size,
                            output_dir: self.output_dir,
                            file_counters: self.file_counters,
                            pending: self.pending.update(k as int, cols),
                        },
                        None,
                    )
                }
            },
        }
    }

    /// The writer and the batches after every kind from `k` on with pending
    /// rows has been emitted, in the order of the kinds.
    pub open spec fn flush_from(self, k: nat) -> (L3WriterView, Seq<BatchView>)
        decreases KIND_COUNT - k,
    {
        if k >= KIND_COUNT {
            (self, seq![])
        } else if row_count(self.pending[k as int]) > 0 {
            let (next, batch) = self.emit(k, self.pending[k as int]);
            let (last, rest) = next.flush_from(k + 1);
            (last, seq![batch] + rest)
        } else {
            self.flush_from(k + 1)
        }
    }
}

/// Puts `x` at index `i` of `v` and returns what stood there.
pub(crate) fn replace_at<T>(v: &mut Vec<T>, i: usize, x: T) -> (r: T)
    requires
        i < old(v)@.len(),
    ensures
        r == old(v)@[i as int],
        final(v)@ == old(v)@.update(i as int, x),
    no_unwind
{
    let mut x = x;
    std::mem::swap(&mut x, &mut v[i]);
    x
}

/// Collects parsed messages into typed columns, one set per message kind, and
/// hands each set out as a batch once it holds `batch_size` rows.
pub struct L3Writer {
    batch_size: usize,
    output_dir: String,
    file_counters: Vec<usize>,
    columns: Vec<Vec<Column>>,
}

/// The empty columns of kind `k`.
fn empty_columns(k: usize) -> (r: Vec<Column>)
    requires
        k < KIND_COUNT,
    ensures
        columns_view(r@) == empty_schema(k as nat),
        shaped(columns_view(r@), k as nat),
{
    let i32c = |n: &'static str| -> (c: Column)
        ensures
            column_view(c) == (ColumnView { name: n@, is_i64: false, values: seq![] }),
        {
            let c = Column { name: n, data: ColumnData::Int32(Vec::new()) };
            assert(column_view(c).values =~= seq![]);
            c
        };
    let i64c = |n: &'static str| -> (c: Column)
        ensures
            column_view(c) == (ColumnView { name: n@, is_i64: true, values: seq![] }),
        {
            let c = Column { name: n, data: ColumnData::Int64(Vec::new()) };
            assert(column_view(c).values =~= seq![]);
            c
        };
    let r = if k == 0 {
        vec![i64c("timestamp"), i32c("event_code")]
    } else if k == 1 {
        vec![
            i32c("stock_locate"),
            i32c("tracking_number"),
            i64c("timestamp"),
            i64c("symbol_raw_i64"),
        ]
    } else if k == 2 {
        vec![i32c("stock_locate"), i64c("timestamp"), i32c("price"), i32c("shares")]
    } else if k == 3 {
        vec![i32c("stock_locate"), i64c("timestamp"), i32c("executed_shares")]
    } else if k == 6 {
        vec![i32c("stock_locate"), i64c("timestamp"), i32c("price")]
    } else if k == 13 {
        vec![i32c("stock_locate"), i64c("timestamp"), i64c("imbalance_shares")]
    } else {
        vec![i32c("stock_locate"), i64c("timestamp")]
    };
    assert(columns_view(r@) =~= empty_schema(k as nat));
    r
}

/// The batches `bs` as mathematical values.
pub open spec fn batches_view(bs: Seq<ColumnBatch>) -> Seq<BatchView> {
    bs.map_values(|b: ColumnBatch| b.view())
}

/// The batch `b` as a mathematical value, if there is one.
pub open spec fn opt_batch_view(b: Option<ColumnBatch>) -> Option<BatchView> {
    match b {
        Some(b) => Some(b.view()),
        None => None,
    }
}

/// Returns the file kind of `msg` and the row it adds, or `None` for an
/// unknown message.
pub fn message_row(msg: &ItchMessage) -> (r: Option<(usize, Vec<Cell>)>)
    ensures
        match kind_of(*msg) {
            None => r is None,
            Some(k) => r matches Some((rk, row)) && rk == k && row@ == row_of(*msg),
        },
{
    let r = match msg {
        ItchMessage::SystemEvent(m) => (
            0,
            vec![Cell::Int64(m.timestamp as i64), Cell::Int32(m.event_code as i32)],
        ),
        ItchMessage::StockDirectory(m) => (
            1,
            vec![
                Cell::Int32(m.stock_locate as i32),
                Cell::Int32(m.tracking_number as i32),
                Cell::Int64(m.timestamp as i64),
                Cell::Int64(le_i64(m.symbol)),
            ],
        ),
        ItchMessage::AddOrder(m) => (
            2,
            vec![
                Cell::Int32(m.stock_locate as i32),
                Cell::Int64(m.timestamp as i64),
                Cell::Int32(m.price as i32),
                Cell::Int32(m.shares as i32),
            ],
        ),
        ItchMessage::OrderExecuted(m) => (
            3,
            vec![
                Cell::Int32(m.stock_locate as i32),
                Cell::Int64(m.timestamp as i64),
                Cell::Int32(m.executed_shares as i32),
            ],
        ),
        ItchMessage::OrderCancel(m) => (
            4,
            vec![Cell::Int32(m.stock_locate as i32), Cell::Int64(m.timestamp as i64)],
        ),
        ItchMessage::AddOrderMPID(m) => (
            5,
            vec![Cell::Int32(m.stock_locate as i32), Cell::Int64(m.timestamp as i64)],
        ),
        ItchMessage::OrderExecutedWithPrice(m) => (
            6,
            vec![
                Cell::Int32(m.stock_locate as i32),
                Cell::Int64(m.timestamp as i64),
                Cell::Int32(m.execution_price as i32),
            ],
        ),
        ItchMessage::CrossTrade(m) => (
            7,
            vec![Cell::Int32(m.stock_locate as i32), Cell::Int64(m.timestamp as i64)],
        ),
        ItchMessage::Trade(m) => (
            8,
            vec![Cell::Int32(m.stock_locate as i32), Cell::Int64(m.timestamp as i64)],
        ),
        ItchMessage::OrderDelete(m) => (
            9,
            vec![Cell::Int32(m.stock_locate as i32), Cell::Int64(m.timestamp as i64)],
        ),
        ItchMessage::OrderReplace(m) => (
            10,
            vec![Cell::Int32(m.stock_locate as i32), Cell::Int64(m.timestamp as i64)],
        ),
        ItchMessage::StockTradingAction(m) => (
            11,
            vec![Cell::Int32(m.stock_locate as i32), Cell::Int64(m.timestamp as i64)],
        ),
        ItchMessage::OrderPriorityUpdateY(m) => (
            12,
            vec![Cell::Int32(m.stock_locate as i32), Cell::Int64(m.timestamp as i64)],
        ),
        ItchMessage::NetOrderImbalanceIndicator(m) => (
            13,
            vec![
                Cell::Int32(m.stock_locate as i32),
                Cell::Int64(m.timestamp as i64),
                Cell::Int64(m.imbalance_shares as i64),
            ],
        ),
        ItchMessage::MarketParticipantPosition(m) => (
            14,
            vec![Cell::Int32(m.stock_locate as i32), Cell::Int64(m.timestamp as i64)],
        ),
        ItchMessage::Unknown(_) => {
            return None;
        },
    };
    assert(r.1@ =~= row_of(*msg));
    Some(r)
}

/// Appends `cell` to `col`, whose type it has.
fn push_cell(col: &mut Column, cell: Cell)
    requires
        column_view(*old(col)).is_i64 == cell_is_i64(cell),
    ensures
        column_view(*final(col)) == (ColumnView {
            name: column_view(*old(col)).name,
            is_i64: column_view(*old(col)).is_i64,
            values: column_view(*old(col)).values.push(cell_value(cell)),
        }),
{
    match cell {
        Cell::Int32(x) => match &mut col.data {
            ColumnData::Int32(v) => {
                v.push(x);
            },
            ColumnData::Int64(_) => {},
        },
        Cell::Int64(x) => match &mut col.data {
            ColumnData::Int64(v) => {
                v.push(x);
            },
            ColumnData::Int32(_) => {},
        },
    }
    assert(column_view(*col).values =~= column_view(*old(col)).values.push(cell_value(cell)));
}

/// Returns how many values `col` holds.
fn column_len(col: &Column) -> (r: usize)
    ensures
        r == column_view(*col).values.len(),
{
    match &col.data {
        ColumnData::Int32(v) => v.len(),
        ColumnData::Int64(v) => v.len(),
    }
}

/// Returns the name that files of kind `k` carry.
pub fn kind_name_of(k: usize) -> (r: &'static str)
    requires
        k < KIND_COUNT,
    ensures
        r@ == kind_name(k as nat),
{
    if k == 0 {
        "SystemEvent"
    } else if k == 1 {
        "StockDirectory"
    } else if k == 2 {
        "AddOrder"
    } else if k == 3 {
        "OrderExecuted"
    } else if k == 4 {
        "OrderCancel"
    } else if k == 5 {
        "AddOrderMPID"
    } else if k == 6 {
        "OrderExecutedWithPrice"
    } else if k == 7 {
        "CrossTrade"
    } else if k == 8 {
        "Trade"
    } else if k == 9 {
        "OrderDelete"
    } else if k == 10 {
        "OrderReplace"
    } else if k == 11 {
        "StockTradingAction"
    } else if k == 12 {
        "OrderPriorityUpdateY"
    } else if k == 13 {
        "NetOrderImbalanceIndicator"
    } else {
        "MarketParticipantPosition"
    }
}

/// The row `row` has one cell per column of kind `k`, each of its column's type.
pub open spec fn row_fits(row: Seq<Cell>, k: nat) -> bool {
    &&& row.len() == empty_schema(k).len()
    &&& forall|j: int| 0 <= j < row.len() ==> cell_is_i64(#[trigger] row[j]) == empty_schema(k)[j].is_i64
}

/// The row of a message fits the columns of its kind.
pub proof fn lemma_row_fits(msg: ItchMessage)
    requires
        kind_of(msg) is Some,
    ensures
        row_fits(row_of(msg), kind_of(msg)->0),
{
}

/// Appending a row keeps columns shaped by their kind.
pub proof fn lemma_push_row_shaped(cols: Seq<ColumnView>, row: Seq<Cell>, k: nat)
    requires
        shaped(cols, k),
        row_fits(row, k),
    ensures
        shaped(push_row(cols, row), k),
        row_count(push_row(cols, row)) == row_count(cols) + 1,
{
    let pushed = push_row(cols, row);
    assert forall|j: int| 0 <= j < pushed.len() implies (#[trigger] pushed[j]).values.len()
        == row_count(pushed) by {
        assert(cols[j].values.len() == row_count(cols));
        assert(cols[0].values.len() == row_count(cols));
    }
}

/// Appends `row` to the columns `cols` of kind `k`.
fn append_row(cols: &mut Vec<Column>, row: &Vec<Cell>, Ghost(k): Ghost<nat>)
    requires
        shaped(columns_view(old(cols)@), k),
        row_fits(row@, k),
    ensures
        columns_view(final(cols)@) == push_row(columns_view(old(cols)@), row@),
        shaped(columns_view(final(cols)@), k),
{
    let ghost start = columns_view(cols@);
    let ghost target = push_row(start, row@);
    proof {
        lemma_push_row_shaped(start, row@, k);
    }
    let mut j: usize = 0;
    while j < row.len()
        invariant
            shaped(start, k),
            row_fits(row@, k),
            target == push_row(start, row@),
            j <= row@.len(),
            cols@.len() == row@.len(),
            forall|i: int| 0 <= i < j ==> column_view(#[trigger] cols@[i]) == target[i],
            forall|i: int| j <= i < row@.len() ==> column_view(#[trigger] cols@[i]) == start[i],
        decreases row@.len() - j,
    {
        let ghost before = cols@;
        assert(column_view(cols@[j as int]) == start[j as int]);
        push_cell(&mut cols[j], row[j]);
        proof {
            assert forall|i: int| 0 <= i < row@.len() && i != j implies #[trigger] cols@[i]
                == before[i] by {}
            assert(column_view(cols@[j as int]) =~= target[j as int]);
        }
        j = j + 1;
    }
    assert(columns_view(cols@) =~= target);
}

/// The columns of kind `k` that hold the rows of `msgs`, in order.
pub open spec fn rows_to_columns(k: nat, msgs: Seq<ItchMessage>) -> Seq<ColumnView>
    decreases msgs.len(),
{
    if msgs.len() == 0 {
        empty_schema(k)
    } else {
        push_row(rows_to_columns(k, msgs.drop_last()), row_of(msgs.last()))
    }
}

/// The messages of `msgs` that are of kind `k`, in order.
pub open spec fn of_kind(msgs: Seq<ItchMessage>, k: nat) -> Seq<ItchMessage>
    decreases msgs.len(),
{
    if msgs.len() == 0 {
        seq![]
    } else if kind_of(msgs.last()) == Some(k) {
        of_kind(msgs.drop_last(), k).push(msgs.last())
    } else {
        of_kind(msgs.drop_last(), k)
    }
}

/// Returns the columns of kind `k` that hold the rows of the messages of
/// `msgs` of that kind, in order; the other messages are skipped.
pub fn columns_of(k: usize, msgs: &Vec<ItchMessage>) -> (r: Vec<Column>)
    requires
        k < KIND_COUNT,
    ensures
        columns_view(r@) == rows_to_columns(k as nat, of_kind(msgs@, k as nat)),
        shaped(columns_view(r@), k as nat),
{
    let mut cols = empty_columns(k);
    let mut i: usize = 0;
    while i < msgs.len()
        invariant
            k < KIND_COUNT,
            i <= msgs@.len(),
            columns_view(cols@) == rows_to_columns(k as nat, of_kind(msgs@.take(i as int), k as nat)),
            shaped(columns_view(cols@), k as nat),
        decreases msgs@.len() - i,
    {
        let msg = &msgs[i];
        assert(msgs@.take(i + 1).drop_last() =~= msgs@.take(i as int));
        assert(msgs@.take(i + 1).last() == msgs@[i as int]);
        match message_row(msg) {
            Some((mk, row)) => {
                if mk == k {
                    proof {
                        lemma_row_fits(*msg);
                        let before = of_kind(msgs@.take(i as int), k as nat);
                        assert(before.push(*msg).drop_last() =~= before);
                    }
                    append_row(&mut cols, &row, Ghost(k as nat));
                }
            },
            None => {},
        }
        i = i + 1;
    }
    assert(msgs@.take(msgs@.len() as int) =~= msgs@);
    cols
}

impl View for L3Writer {
    type V = L3WriterView;

    closed spec fn view(&self) -> L3WriterView {
        L3WriterView {
            batch_size: self.batch_size as nat,
            output_dir: self.output_dir@,
            file_counters: self.file_counters@.map_values(|c: usize| c as nat),
            pending: self.columns@.map_values(|cs: Vec<Column>| columns_view(cs@)),
        }
    }
}

impl L3Writer {
    #[verifier::type_invariant]
    spec fn inv(self) -> bool {
        &&& self.file_counters@.len() == KIND_COUNT
        &&& self.columns@.len() == KIND_COUNT
        &&& forall|k: int|
            0 <= k < KIND_COUNT ==> shaped(columns_view((#[trigger] self.columns@[k])@), k as nat)
    }

    /// The writer's invariant, seen through its view.
    proof fn lemma_view_wf(&self)
        requires
            self.inv(),
        ensures
            self@.wf(),
    {
        assert forall|k: int| 0 <= k < KIND_COUNT implies shaped(#[trigger] self@.pending[k], k as nat) by {
            assert(self@.pending[k] == columns_view(self.columns@[k]@));
        }
    }

    /// Creates a writer with no pending rows that emits a batch once a kind
    /// holds `batch_size` rows, into files under `output_dir`.
    pub fn new(output_dir: String, batch_size: usize) -> (r: Self)
        ensures
            r@.wf(),
            r@.batch_size == batch_size,
            r@.output_dir == output_dir@,
            r@.file_counters == Seq::new(KIND_COUNT as nat, |k: int| 0nat),
            r@.pending == Seq::new(KIND_COUNT as nat, |k: int| empty_schema(k as nat)),
    {
        let mut file_counters: Vec<usize> = Vec::new();
        let mut columns: Vec<Vec<Column>> = Vec::new();
        let mut k: usize = 0;
        while k < KIND_COUNT
            invariant
                k <= KIND_COUNT,
                file_counters@.len() == k,
                columns@.len() == k,
                forall|i: int| 0 <= i < k ==> file_counters@[i] == 0,
                forall|i: int|
                    0 <= i < k ==> columns_view((#[trigger] columns@[i])@) == empty_schema(
                        i as nat,
                    ),
            decreases KIND_COUNT - k,
        {
            file_counters.push(0);
            columns.push(empty_columns(k));
            k = k + 1;
        }
        let r = L3Writer { batch_size, output_dir, file_counters, columns };
        assert(r@.file_counters =~= Seq::new(KIND_COUNT as nat, |k: int| 0nat));
        assert(r@.pending =~= Seq::new(KIND_COUNT as nat, |k: int| empty_schema(k as nat)));
        assert forall|k: int| 0 <= k < KIND_COUNT implies shaped(#[trigger] r@.pending[k], k as nat) by {
            assert(r@.pending[k] == empty_schema(k as nat));
        }
        r
    }

    /// Returns the directory that the writer's files go to.
    pub fn output_dir(&self) -> (r: &str)
        ensures
            r@ == self@.output_dir,
    {
        self.output_dir.as_str()
    }

    /// Returns how many rows of one kind make a batch.
    pub fn batch_size(&self) -> (r: usize)
        ensures
            r == self@.batch_size,
    {
        self.batch_size
    }

    /// Returns how many files of kind `k` have been emitted.
    pub fn file_counter(&self, k: usize) -> (r: usize)
        requires
            k < KIND_COUNT,
        ensures
            r == self@.file_counters[k as int],
    {
        proof {
            use_type_invariant(self);
        }
        self.file_counters[k]
    }

    /// Emits `cols` as the batch of kind `k`, whose pending columns are empty.
    fn emit_kind(&mut self, k: usize, cols: Vec<Column>) -> (b: ColumnBatch)
        requires
            k < KIND_COUNT,
            old(self)@.pending[k as int] == empty_schema(k as nat),
            old(self)@.file_counters[k as int] < usize::MAX,
        ensures
            final(self)@ == old(self)@.emit(k as nat, columns_view(cols@)).0,
            b.view() == old(self)@.emit(k as nat, columns_view(cols@)).1,
        no_unwind
    {
        proof {
            use_type_invariant(&*self);
        }
        let ghost v = self@;
        let idx = self.file_counters[k];
        self.file_counters[k] = idx + 1;
        let ghost cv = columns_view(cols@);
        let b = ColumnBatch { kind: k, file_index: idx, columns: cols };
        let ghost (next, batch) = v.emit(k as nat, cv);
        assert(self@.file_counters =~= next.file_counters);
        assert(self@.pending =~= next.pending);
        assert(self@ =~= next);
        assert(b.view() =~= batch);
        b
    }

    /// Adds the row of `msg` to the columns of its kind and returns them as a
    /// batch once they hold `batch_size` rows; unknown messages are dropped.
    pub fn add_message(&mut self, msg: ItchMessage) -> (r: Option<ColumnBatch>)
        requires
            old(self)@.counters_below_max(),
        ensures
            final(self)@.wf(),
            final(self)@ == old(self)@.add(msg).0,
            opt_batch_view(r) == old(self)@.add(msg).1,
    {
        proof {
            use_type_invariant(&*self);
            self.lemma_view_wf();
        }
        let ghost v = self@;
        match message_row(&msg) {
            None => None,
            Some((k, row)) => {
                proof {
                    lemma_row_fits(msg);
                    assert(shaped(v.pending[k as int], k as nat));
                    assert(columns_view(self.columns@[k as int]@) == v.pending[k as int]);
                }
                let mut cols = replace_at(&mut self.columns, k, empty_columns(k));
                append_row(&mut cols, &row, Ghost(k as nat));
                let ghost cv = columns_view(cols@);
                assert(cv == push_row(v.pending[k as int], row@));
                let rows = column_len(&cols[0]);
                if rows >= self.batch_size {
                    assert(self@.pending =~= v.pending.update(k as int, empty_schema(k as nat)));
                    let ghost mid = self@;
                    let b = self.emit_kind(k, cols);
                    proof {
                        let (next, batch) = v.emit(k as nat, cv);
                        assert(self@.pending =~= next.pending);
                        assert(self@.file_counters =~= next.file_counters);
                        assert(self@ =~= next);
                    }
                    Some(b)
                } else {
                    replace_at(&mut self.columns, k, cols);
                    assert(self@.pending =~= v.pending.update(k as int, cv));
                    None
                }
            },
        }
    }

    /// Emits every kind with pending rows as a batch, in the order of the kinds.
    pub fn flush_remaining(&mut self) -> (r: Vec<ColumnBatch>)
        requires
            old(self)@.counters_below_max(),
        ensures
            final(self)@.wf(),
            final(self)@ == old(self)@.flush_from(0).0,
            batches_view(r@) == old(self)@.flush_from(0).1,
    {
        proof {
            use_type_invariant(&*self);
            self.lemma_view_wf();
        }
        let ghost v = self@;
        let mut out: Vec<ColumnBatch> = Vec::new();
        let mut k: usize = 0;
        while k < KIND_COUNT
            invariant
                k <= KIND_COUNT,
                self@.wf(),
                forall|i: int| k <= i < KIND_COUNT ==> #[trigger] self@.file_counters[i] < usize::MAX,
                v.flush_from(0).0 == self@.flush_from(k as nat).0,
                v.flush_from(0).1 == batches_view(out@) + self@.flush_from(k as nat).1,
            decreases KIND_COUNT - k,
        {
            proof {
                use_type_invariant(&*self);
            }
            let rows = column_len(&self.columns[k][0]);
            if rows > 0 {
                let ghost before = self@;
                let ghost old_out = out@;
                let cols = replace_at(&mut self.columns, k, empty_columns(k));
                assert(self@.pending =~= before.pending.update(k as int, empty_schema(k as nat)));
                let b = self.emit_kind(k, cols);
                proof {
                    let (next, batch) = before.emit(k as nat, before.pending[k as int]);
                    assert(self@.pending =~= next.pending);
                    assert(self@.file_counters =~= next.file_counters);
                    assert(self@ =~= next);
                    use_type_invariant(&*self);
                    self.lemma_view_wf();
                }
                out.push(b);
                assert(batches_view(out@) =~= batches_view(old_out).push(b.view()));
                assert(batches_view(out@) + self@.flush_from((k + 1) as nat).1 =~= batches_view(
                    old_out,
                ) + before.flush_from(k as nat).1);
            }
            k = k + 1;
        }
        out
    }
}

} // verus!
