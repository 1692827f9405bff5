pub mod collect_stats;
pub mod l3_laws;
pub mod l3_writer;

pub use collect_stats::StatsCollector;
pub use l3_writer::L3Writer;
pub mod parquet_laws;
pub mod parquet_writer;

pub use parquet_writer::ParquetWriter;
