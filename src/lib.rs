//! The edge expansion step of a compiled graph traversal: for each incoming
//! record, follow the edges of its current vertex (or of the end of its path)
//! through a prepared statement of the graph store, and emit one new record
//! per match, lazily.
//!
//! - `element`: vertices, edges, paths and the entries that records hold.
//! - `record`: a record, seen as a map from tag to entry.
//! - `stream`: lazy match streams and the graph store's interface.
//! - `expand`: the adapters that turn matches into records.
//! - `operator`: the expansion operator and what it yields for a record.
//! - `plan`: building the operator from a plan node.
//! - `memory`: a graph store held in memory.

pub mod element;
pub mod record;
pub mod stream;
pub mod expand;
pub mod operator;
pub mod plan;
pub mod memory;
