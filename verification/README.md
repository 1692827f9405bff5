# order_book_engine

A parser for NASDAQ ITCH order book messages, verified with Verus.

- `src/parser/` decodes length-prefixed ITCH frames. `common.rs` reads
  big-endian integers; each message module (`add_order.rs`, ...) decodes one
  fixed layout and states, field by field, which bytes each field comes from;
  `parser.rs` holds `L3Parser`, which walks the frames of a buffer, and the
  spec of the frame chain, with the proof that parsing the whole buffer is
  parsing it frame by frame.
- `src/schema/itchformat.rs` holds the message types.
- `src/utils/collect_stats.rs` counts messages, unknown messages and their
  runs, and timestamps that go back.
- `src/utils/l3_writer.rs` batches messages into typed columns, one set per
  message kind; `l3_laws.rs` proves that every value is written exactly once,
  in order, into consecutively numbered batches, that a kind with `n`
  messages has emitted `n / batch_size` full batches, and that a second flush
  emits nothing.
- `src/utils/parquet_writer.rs` batches whole messages per kind and builds
  their Parquet columns; `parquet_laws.rs` proves the same of it.
- `app/` is the command line program: it maps the input file into memory,
  runs the parser, prints the integrity report and writes the batches as
  Arrow IPC (or Parquet) files.
