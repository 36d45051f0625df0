//! Verified core of a search-cluster migration tool.
//!
//! The library models a four-phase migration pipeline — discover indices and
//! aliases on a source cluster, replicate each index's schema to a destination
//! cluster, trigger a remote data copy per index, and re-apply aliases — as a
//! pure state machine over plain values. All HTTP traffic and JSON decoding
//! happen outside the library, which only decides what request to issue next
//! and what to record about each response.

pub mod json;
pub mod discovery;
pub mod schema;
pub mod machine;

pub use json::Json;
pub use machine::Event;
pub use machine::LogRecord;
pub use machine::Method;
pub use machine::MigrationError;
pub use machine::Options;
pub use machine::Phase;
pub use machine::Reindexer;
pub use machine::Request;
pub use machine::Run;
pub use machine::RunStatus;
pub use machine::StepOutcome;
pub use machine::move_cluster;
