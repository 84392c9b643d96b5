//! A block-stream consumer that flattens decoded blockchain blocks into an
//! export-friendly record model and accumulates them until the run completes.
//!
//! The external driver decodes blocks and calls `JsonDump::on_start`, then
//! `JsonDump::on_block` once per block, then `JsonDump::on_complete`; the
//! accumulated records are then serialized and written out by the caller.

pub mod dump;
pub mod hex;
pub mod records;
pub mod transform;

pub use dump::JsonDump;
pub use hex::arr_to_hex_swapped;
pub use records::Block;
pub use records::ParsedBlock;
pub use records::Transaction;
pub use records::Tx;
pub use records::TxOutput;
