//! Batch enrichment pipeline: the decisions behind sourcing table rows,
//! quantizing vectors against a codebook, staging results in the bulk-load
//! format and merging them back, progress reporting and range partitioning.

pub mod catalog;
pub mod codebook;
pub mod embed;
pub mod export;
pub mod merge;
pub mod partition;
pub mod progress;
pub mod quantize;
pub mod sql;
pub mod wire;

pub use catalog::{get_default_batch_size, show_available_runtimes};
pub use codebook::{build_codebook, CodebookError, MAX_CENTROIDS};
pub use embed::{is_text, pair_from_end, prepare_batch, select_inputs, BatchError};
pub use export::{
    export_progress, should_flush, BatchStep, EndStep, ExportState, FLUSH_INTERVAL_SECS,
    MAX_FLUSH_ROWS, MIN_FLUSH_ROWS,
};
pub use partition::{
    connection_budget, split_range, task_range, worker_count, worker_ranges, PartitionError,
    WorkRange, RESERVED_CONNECTIONS,
};
pub use progress::{calculate_progress, ProgressTracker};
pub use quantize::{closest_centroid, quantize, segment_bounds};
pub use sql::{
    export_staging_name, get_full_table_name, merge_statement, quote_ident, range_query,
    row_count_query, row_source_query, worker_staging_name,
};
pub use wire::{
    array_literal, code_field_strings, code_line, push_decimal, staged_line, vector_literal,
};
