//! The record model: the flattened per-input/per-output rows that are
//! exported, and the decoded block shape handed in by the external driver.

use vstd::prelude::*;

verus! {

/// One flattened input or output occurrence, as exported: the hex id of the
/// owning transaction and, for outputs, the resolved address if any.
pub struct Transaction {
    pub tx: String,
    pub address: Option<String>,
}

/// One block's exported view: display-order block hash, header timestamp,
/// and one record per transaction input and per transaction output.
pub struct ParsedBlock {
    pub block_hash: String,
    pub timestamp: u32,
    pub tx_in: Vec<Transaction>,
    pub tx_out: Vec<Transaction>,
}

/// One output of a decoded transaction: only the address resolved by the
/// upstream script analysis, absent when no address was decodable.
pub struct TxOutput {
    pub address: Option<String>,
}

/// One decoded transaction, as handed in by the external driver: its stored
/// hash bytes, how many inputs it consumes, and its resolved outputs.
pub struct Tx {
    pub hash: Vec<u8>,
    pub input_count: usize,
    pub outputs: Vec<TxOutput>,
}

/// One decoded block: stored header hash bytes, header timestamp, and the
/// transactions in block order.
pub struct Block {
    pub header_hash: Vec<u8>,
    pub timestamp: u32,
    pub txs: Vec<Tx>,
}

/// The character sequence of an optional string.
pub open spec fn opt_str_view(a: Option<String>) -> Option<Seq<char>> {
    match a {
        Some(s) => Some(s@),
        None => None,
    }
}

/// Mathematical value of one exported input/output record.
#[verifier::ext_equal]
pub ghost struct TxRecordModel {
    pub tx: Seq<char>,
    pub address: Option<Seq<char>>,
}

/// The models of a sequence of exported records.
pub open spec fn record_models(rows: Seq<Transaction>) -> Seq<TxRecordModel> {
    rows.map_values(|r: Transaction| r@)
}

/// The models of a sequence of decoded transactions.
pub open spec fn tx_models(txs: Seq<Tx>) -> Seq<TxModel> {
    txs.map_values(|t: Tx| t@)
}

impl View for Transaction {
    type V = TxRecordModel;

    open spec fn view(&self) -> TxRecordModel {
        TxRecordModel { tx: self.tx@, address: opt_str_view(self.address) }
    }
}

/// Mathematical value of one exported block record.
#[verifier::ext_equal]
pub ghost struct BlockRecordModel {
    pub block_hash: Seq<char>,
    pub timestamp: u32,
    pub tx_in: Seq<TxRecordModel>,
    pub tx_out: Seq<TxRecordModel>,
}

impl View for ParsedBlock {
    type V = BlockRecordModel;

    open spec fn view(&self) -> BlockRecordModel {
        BlockRecordModel {
            block_hash: self.block_hash@,
            timestamp: self.timestamp,
            tx_in: record_models(self.tx_in@),
            tx_out: record_models(self.tx_out@),
        }
    }
}

/// Mathematical value of one decoded transaction.
#[verifier::ext_equal]
pub ghost struct TxModel {
    pub hash: Seq<u8>,
    pub input_count: nat,
    pub outputs: Seq<Option<Seq<char>>>,
}

impl View for Tx {
    type V = TxModel;

    open spec fn view(&self) -> TxModel {
        TxModel {
            hash: self.hash@,
            input_count: self.input_count as nat,
            outputs: self.outputs@.map_values(|o: TxOutput| opt_str_view(o.address)),
        }
    }
}

/// Mathematical value of one decoded block.
#[verifier::ext_equal]
pub ghost struct BlockModel {
    pub header_hash: Seq<u8>,
    pub timestamp: u32,
    pub txs: Seq<TxModel>,
}

impl View for Block {
    type V = BlockModel;

    open spec fn view(&self) -> BlockModel {
        BlockModel {
            header_hash: self.header_hash@,
            timestamp: self.timestamp,
            txs: tx_models(self.txs@),
        }
    }
}

} // verus!
