//! The transformer: flattens one decoded block into its exported record,
//! one row per transaction input and one per transaction output, in
//! transaction order and then input/output order.

use vstd::prelude::*;

use crate::hex::arr_to_hex_swapped;
use crate::hex::hex_swapped;
use crate::records::opt_str_view;
use crate::records::record_models;
use crate::records::tx_models;
use crate::records::Block;
use crate::records::BlockModel;
use crate::records::BlockRecordModel;
use crate::records::ParsedBlock;
use crate::records::Transaction;
use crate::records::Tx;
use crate::records::TxModel;
use crate::records::TxOutput;
use crate::records::TxRecordModel;

verus! {

/// The input records of one transaction: one per consumed input, each with
/// the reversed-hex transaction id and no address.
pub open spec fn tx_in_records(t: TxModel) -> Seq<TxRecordModel> {
    Seq::new(t.input_count, |i: int| TxRecordModel { tx: hex_swapped(t.hash), address: None })
}

/// The output records of one transaction: one per produced output, each with
/// the reversed-hex transaction id and the resolved address unchanged.
pub open spec fn tx_out_records(t: TxModel) -> Seq<TxRecordModel> {
    t.outputs.map_values(|a: Option<Seq<char>>| TxRecordModel { tx: hex_swapped(t.hash), address: a })
}

/// All input records of a block, in transaction order then input order.
pub open spec fn block_in_records(txs: Seq<TxModel>) -> Seq<TxRecordModel>
    decreases txs.len(),
{
    if txs.len() == 0 {
        Seq::empty()
    } else {
        block_in_records(txs.drop_last()) + tx_in_records(txs.last())
    }
}

/// All output records of a block, in transaction order then output order.
pub open spec fn block_out_records(txs: Seq<TxModel>) -> Seq<TxRecordModel>
    decreases txs.len(),
{
    if txs.len() == 0 {
        Seq::empty()
    } else {
        block_out_records(txs.drop_last()) + tx_out_records(txs.last())
    }
}

/// Total number of inputs across the transactions of a block.
pub open spec fn total_inputs(txs: Seq<TxModel>) -> nat
    decreases txs.len(),
{
    if txs.len() == 0 {
        0
    } else {
        total_inputs(txs.drop_last()) + txs.last().input_count
    }
}

/// Total number of outputs across the transactions of a block.
pub open spec fn total_outputs(txs: Seq<TxModel>) -> nat
    decreases txs.len(),
{
    if txs.len() == 0 {
        0
    } else {
        total_outputs(txs.drop_last()) + txs.last().outputs.len()
    }
}

/// The flattened exported record of one decoded block.
pub open spec fn block_record(b: BlockModel) -> BlockRecordModel {
    BlockRecordModel {
        block_hash: hex_swapped(b.header_hash),
        timestamp: b.timestamp,
        tx_in: block_in_records(b.txs),
        tx_out: block_out_records(b.txs),
    }
}

/// Law: a block with no transactions flattens to empty input and output
/// record sequences and contributes nothing to any running total, so with
/// `JsonDump::on_block`'s contract the counters are unchanged by such a
/// block.
pub proof fn lemma_empty_block_record(b: BlockModel)
    requires
        b.txs.len() == 0,
    ensures
        block_record(b).tx_in == Seq::<TxRecordModel>::empty(),
        block_record(b).tx_out == Seq::<TxRecordModel>::empty(),
        total_inputs(b.txs) == 0,
        total_outputs(b.txs) == 0,
{
}

/// Law: flattening a block yields exactly one input record per transaction
/// input and one output record per transaction output.
pub proof fn lemma_record_counts(txs: Seq<TxModel>)
    ensures
        block_in_records(txs).len() == total_inputs(txs),
        block_out_records(txs).len() == total_outputs(txs),
    decreases txs.len(),
{
    if txs.len() > 0 {
        lemma_record_counts(txs.drop_last());
    }
}

/// Law: an output record carries the upstream resolved address unchanged
/// (absent stays absent, present is passed through), and an input record
/// never carries an address.
pub proof fn lemma_address_passthrough(t: TxModel)
    ensures
        tx_out_records(t).len() == t.outputs.len(),
        forall|i: int|
            0 <= i < tx_out_records(t).len() ==> (#[trigger] tx_out_records(t)[i]).address
                == t.outputs[i],
        forall|i: int|
            0 <= i < tx_in_records(t).len() ==> (#[trigger] tx_in_records(t)[i]).address is None,
{
}

/// Extending a prefix of transactions by one appends that transaction's
/// records and adds its counts.
proof fn lemma_step(txs: Seq<TxModel>, i: int)
    requires
        0 <= i < txs.len(),
    ensures
        block_in_records(txs.take(i + 1)) == block_in_records(txs.take(i)) + tx_in_records(
            txs[i],
        ),
        block_out_records(txs.take(i + 1)) == block_out_records(txs.take(i)) + tx_out_records(
            txs[i],
        ),
        total_inputs(txs.take(i + 1)) == total_inputs(txs.take(i)) + txs[i].input_count,
        total_outputs(txs.take(i + 1)) == total_outputs(txs.take(i)) + txs[i].outputs.len(),
{
    assert(txs.take(i + 1).drop_last() =~= txs.take(i));
    assert(txs.take(i + 1).last() == txs[i]);
}

/// A prefix of the transactions never has more inputs or outputs in total
/// than the whole sequence.
proof fn lemma_totals_prefix_le(txs: Seq<TxModel>, i: int)
    requires
        0 <= i <= txs.len(),
    ensures
        total_inputs(txs.take(i)) <= total_inputs(txs),
        total_outputs(txs.take(i)) <= total_outputs(txs),
    decreases txs.len() - i,
{
    if i == txs.len() {
        assert(txs.take(i) =~= txs);
    } else {
        lemma_step(txs, i);
        lemma_totals_prefix_le(txs, i + 1);
    }
}

/// Builds the input records of one transaction: `count` rows with the given
/// transaction id and no address.
fn push_input_records(
    rows: &mut Vec<Transaction>,
    txid: &String,
    count: usize,
    Ghost(t): Ghost<TxModel>,
)
    requires
        txid@ == hex_swapped(t.hash),
        count as nat == t.input_count,
    ensures
        record_models(final(rows)@) == record_models(old(rows)@) + tx_in_records(t),
{
    let ghost rows0 = record_models(rows@);
    let mut k: usize = 0;
    while k < count
        invariant
            k <= count,
            txid@ == hex_swapped(t.hash),
            count as nat == t.input_count,
            record_models(rows@) == rows0 + tx_in_records(t).take(k as int),
        decreases count - k,
    {
        let ghost before = record_models(rows@);
        let row = Transaction { tx: txid.clone(), address: None };
        proof {
            assert(row@ == tx_in_records(t)[k as int]);
        }
        rows.push(row);
        proof {
            assert(record_models(rows@) =~= before.push(row@));
            assert(tx_in_records(t).take(k as int + 1) =~= tx_in_records(t).take(k as int).push(
                tx_in_records(t)[k as int],
            ));
            assert(record_models(rows@) =~= rows0 + tx_in_records(t).take(k as int + 1));
        }
        k = k + 1;
    }
    proof {
        assert(tx_in_records(t).take(count as int) =~= tx_in_records(t));
    }
}

/// Copies an optional address string.
fn clone_opt_string(a: &Option<String>) -> (r: Option<String>)
    ensures
        opt_str_view(r) == opt_str_view(*a),
{
    match a {
        Some(s) => Some(s.clone()),
        None => None,
    }
}

/// Builds the output records of one transaction: one row per output with the
/// given transaction id and the resolved address passed through unchanged.
fn push_output_records(
    rows: &mut Vec<Transaction>,
    txid: &String,
    outputs: &Vec<TxOutput>,
    Ghost(t): Ghost<TxModel>,
)
    requires
        txid@ == hex_swapped(t.hash),
        outputs@.map_values(|o: TxOutput| opt_str_view(o.address)) == t.outputs,
    ensures
        record_models(final(rows)@) == record_models(old(rows)@) + tx_out_records(t),
{
    let ghost rows0 = record_models(rows@);
    let mut j: usize = 0;
    while j < outputs.len()
        invariant
            j <= outputs@.len(),
            txid@ == hex_swapped(t.hash),
            outputs@.map_values(|o: TxOutput| opt_str_view(o.address)) == t.outputs,
            record_models(rows@) == rows0 + tx_out_records(t).take(j as int),
        decreases outputs@.len() - j,
    {
        let ghost before = record_models(rows@);
        let row = Transaction {
            tx: txid.clone(),
            address: clone_opt_string(&outputs[j].address),
        };
        proof {
            assert(t.outputs[j as int] == opt_str_view(outputs@[j as int].address));
            assert(row@ == tx_out_records(t)[j as int]);
        }
        rows.push(row);
        proof {
            assert(record_models(rows@) =~= before.push(row@));
            assert(tx_out_records(t).take(j as int + 1) =~= tx_out_records(t).take(j as int).push(
                tx_out_records(t)[j as int],
            ));
            assert(record_models(rows@) =~= rows0 + tx_out_records(t).take(j as int + 1));
        }
        j = j + 1;
    }
    proof {
        assert(tx_out_records(t).take(outputs@.len() as int) =~= tx_out_records(t));
    }
}

/// The transformer: flattens one decoded block into its exported record.
pub fn block_to_record(block: &Block) -> (r: ParsedBlock)
    ensures
        r@ == block_record(block@),
{
    let block_hash = arr_to_hex_swapped(block.header_hash.as_slice());
    let mut tx_in: Vec<Transaction> = Vec::new();
    let mut tx_out: Vec<Transaction> = Vec::new();
    let mut i: usize = 0;
    while i < block.txs.len()
        invariant
            i <= block.txs@.len(),
            record_models(tx_in@) == block_in_records(block@.txs.take(i as int)),
            record_models(tx_out@) == block_out_records(block@.txs.take(i as int)),
        decreases block.txs@.len() - i,
    {
        let t = &block.txs[i];
        let txid = arr_to_hex_swapped(t.hash.as_slice());
        proof {
            assert(block@.txs[i as int] == t@);
        }
        push_input_records(&mut tx_in, &txid, t.input_count, Ghost(t@));
        push_output_records(&mut tx_out, &txid, &t.outputs, Ghost(t@));
        proof {
            lemma_step(block@.txs, i as int);
        }
        i = i + 1;
    }
    proof {
        assert(block@.txs.take(block.txs@.len() as int) =~= block@.txs);
    }
    let r = ParsedBlock { block_hash, timestamp: block.timestamp, tx_in, tx_out };
    proof {
        assert(r@ =~= block_record(block@));
    }
    r
}

/// Sums the input counts of the transactions of a block.
pub fn count_inputs(txs: &Vec<Tx>) -> (n: u64)
    requires
        total_inputs(tx_models(txs@)) <= u64::MAX,
    ensures
        n as nat == total_inputs(tx_models(txs@)),
{
    let ghost m = tx_models(txs@);
    let mut n: u64 = 0;
    let mut i: usize = 0;
    while i < txs.len()
        invariant
            i <= txs@.len(),
            total_inputs(m) <= u64::MAX,
            m == tx_models(txs@),
            n as nat == total_inputs(m.take(i as int)),
        decreases txs@.len() - i,
    {
        proof {
            lemma_step(m, i as int);
            lemma_totals_prefix_le(m, i as int + 1);
            assert(m[i as int] == txs@[i as int]@);
        }
        n = n + (txs[i].input_count as u64);
        i = i + 1;
    }
    proof {
        assert(m.take(txs@.len() as int) =~= m);
    }
    n
}

/// Sums the output counts of the transactions of a block.
pub fn count_outputs(txs: &Vec<Tx>) -> (n: u64)
    requires
        total_outputs(tx_models(txs@)) <= u64::MAX,
    ensures
        n as nat == total_outputs(tx_models(txs@)),
{
    let ghost m = tx_models(txs@);
    let mut n: u64 = 0;
    let mut i: usize = 0;
    while i < txs.len()
        invariant
            i <= txs@.len(),
            total_outputs(m) <= u64::MAX,
            m == tx_models(txs@),
            n as nat == total_outputs(m.take(i as int)),
        decreases txs@.len() - i,
    {
        proof {
            lemma_step(m, i as int);
            lemma_totals_prefix_le(m, i as int + 1);
            assert(m[i as int] == txs@[i as int]@);
        }
        n = n + (txs[i].outputs.len() as u64);
        i = i + 1;
    }
    proof {
        assert(m.take(txs@.len() as int) =~= m);
    }
    n
}

} // verus!
