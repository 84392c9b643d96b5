//! The accumulator: owns the run state for one export run. The external
//! driver calls `on_start` once, `on_block` once per decoded block in
//! ascending height order, and `on_complete` once; the caller then reads the
//! accumulated records back and serializes them to the dump folder.

use vstd::prelude::*;

use crate::records::Block;
use crate::records::BlockModel;
use crate::records::BlockRecordModel;
use crate::records::ParsedBlock;
use crate::transform::block_record;
use crate::transform::block_to_record;
use crate::transform::count_inputs;
use crate::transform::count_outputs;
use crate::transform::total_inputs;
use crate::transform::total_outputs;

verus! {

/// Accumulates the flattened view of a whole block stream until the run
/// completes; the records are then serialized into one document by the
/// caller.
pub struct JsonDump {
    dump_folder: String,
    start_height: u64,
    end_height: u64,
    tx_count: u64,
    in_count: u64,
    out_count: u64,
    parsed_blocks: Vec<ParsedBlock>,
}

/// Mathematical value of the accumulator's run state.
#[verifier::ext_equal]
pub ghost struct DumpModel {
    pub dump_folder: Seq<char>,
    pub start_height: u64,
    pub end_height: u64,
    pub tx_count: u64,
    pub in_count: u64,
    pub out_count: u64,
    pub parsed_blocks: Seq<BlockRecordModel>,
}

impl View for JsonDump {
    type V = DumpModel;

    closed spec fn view(&self) -> DumpModel {
        DumpModel {
            dump_folder: self.dump_folder@,
            start_height: self.start_height,
            end_height: self.end_height,
            tx_count: self.tx_count,
            in_count: self.in_count,
            out_count: self.out_count,
            parsed_blocks: record_models_of_blocks(self.parsed_blocks@),
        }
    }
}

/// The models of a sequence of exported block records.
pub open spec fn record_models_of_blocks(blocks: Seq<ParsedBlock>) -> Seq<BlockRecordModel> {
    blocks.map_values(|b: ParsedBlock| b@)
}

/// The run state after consuming one decoded block: the block's flattened
/// record is appended and the totals grow by its transaction, input and
/// output counts.
pub open spec fn consume_model(m: DumpModel, b: BlockModel) -> DumpModel {
    DumpModel {
        tx_count: (m.tx_count + b.txs.len()) as u64,
        in_count: (m.in_count + total_inputs(b.txs)) as u64,
        out_count: (m.out_count + total_outputs(b.txs)) as u64,
        parsed_blocks: m.parsed_blocks.push(block_record(b)),
        ..m
    }
}

/// The run state after consuming a whole sequence of decoded blocks in
/// order.
pub open spec fn consume_all_model(m: DumpModel, blocks: Seq<BlockModel>) -> DumpModel
    decreases blocks.len(),
{
    if blocks.len() == 0 {
        m
    } else {
        consume_model(consume_all_model(m, blocks.drop_last()), blocks.last())
    }
}

/// The flattened records of a sequence of decoded blocks, one per block, in
/// the same order.
pub open spec fn block_records_of(blocks: Seq<BlockModel>) -> Seq<BlockRecordModel> {
    blocks.map_values(|b: BlockModel| block_record(b))
}

/// Law: a run that consumes a sequence of blocks accumulates exactly one
/// record per block, in call order, whatever the block heights were; with
/// `on_complete`'s contract, which leaves the records untouched, the
/// document handed to the exporter holds exactly those records.
pub proof fn lemma_run_collects_all_records(m: DumpModel, blocks: Seq<BlockModel>)
    ensures
        consume_all_model(m, blocks).parsed_blocks == m.parsed_blocks + block_records_of(blocks),
        block_records_of(blocks).len() == blocks.len(),
    decreases blocks.len(),
{
    if blocks.len() == 0 {
        assert(m.parsed_blocks + block_records_of(blocks) =~= m.parsed_blocks);
    } else {
        lemma_run_collects_all_records(m, blocks.drop_last());
        assert(block_records_of(blocks) =~= block_records_of(blocks.drop_last()).push(
            block_record(blocks.last()),
        ));
        assert(consume_all_model(m, blocks).parsed_blocks =~= m.parsed_blocks + block_records_of(
            blocks,
        ));
    }
}

impl JsonDump {
    /// Creates an accumulator that will dump into the given folder, with no
    /// blocks seen and every height and counter at zero.
    pub fn new(dump_folder: String) -> (r: JsonDump)
        ensures
            r@ == (DumpModel {
                dump_folder: dump_folder@,
                start_height: 0,
                end_height: 0,
                tx_count: 0,
                in_count: 0,
                out_count: 0,
                parsed_blocks: Seq::<BlockRecordModel>::empty(),
            }),
    {
        let r = JsonDump {
            dump_folder,
            start_height: 0,
            end_height: 0,
            tx_count: 0,
            in_count: 0,
            out_count: 0,
            parsed_blocks: Vec::new(),
        };
        proof {
            assert(record_models_of_blocks(r.parsed_blocks@) =~= Seq::<BlockRecordModel>::empty());
        }
        r
    }

    /// Records the starting height of the run; nothing else changes.
    pub fn on_start(&mut self, block_height: u64)
        ensures
            final(self)@ == (DumpModel { start_height: block_height, ..old(self)@ }),
    {
        self.start_height = block_height;
    }

    /// Consumes one decoded block: appends its flattened record and adds its
    /// transaction, input and output counts to the running totals. The
    /// height is informational only and is not embedded in the record.
    pub fn on_block(&mut self, block: &Block, _block_height: u64)
        requires
            old(self)@.tx_count + block@.txs.len() <= u64::MAX,
            old(self)@.in_count + total_inputs(block@.txs) <= u64::MAX,
            old(self)@.out_count + total_outputs(block@.txs) <= u64::MAX,
        ensures
            final(self)@ == consume_model(old(self)@, block@),
    {
        let record = block_to_record(block);
        let n_in = count_inputs(&block.txs);
        let n_out = count_outputs(&block.txs);
        self.tx_count = self.tx_count + (block.txs.len() as u64);
        self.in_count = self.in_count + n_in;
        self.out_count = self.out_count + n_out;
        self.parsed_blocks.push(record);
        proof {
            assert(record_models_of_blocks(self.parsed_blocks@) =~= old(
                self,
            )@.parsed_blocks.push(block_record(block@)));
        }
    }

    /// Records the final height of the run; the accumulated records and the
    /// running totals are left untouched for the caller to export.
    pub fn on_complete(&mut self, block_height: u64)
        ensures
            final(self)@ == (DumpModel { end_height: block_height, ..old(self)@ }),
    {
        self.end_height = block_height;
    }

    /// The folder the final document is to be written into.
    pub fn dump_folder(&self) -> (r: &String)
        ensures
            r@ == self@.dump_folder,
    {
        &self.dump_folder
    }

    /// The starting height recorded by `on_start`.
    pub fn start_height(&self) -> (r: u64)
        ensures
            r == self@.start_height,
    {
        self.start_height
    }

    /// The final height recorded by `on_complete`.
    pub fn end_height(&self) -> (r: u64)
        ensures
            r == self@.end_height,
    {
        self.end_height
    }

    /// Total transactions consumed so far.
    pub fn tx_count(&self) -> (r: u64)
        ensures
            r == self@.tx_count,
    {
        self.tx_count
    }

    /// Total transaction inputs consumed so far.
    pub fn in_count(&self) -> (r: u64)
        ensures
            r == self@.in_count,
    {
        self.in_count
    }

    /// Total transaction outputs consumed so far.
    pub fn out_count(&self) -> (r: u64)
        ensures
            r == self@.out_count,
    {
        self.out_count
    }

    /// The accumulated block records, one per consumed block, in call order.
    pub fn blocks(&self) -> (r: &Vec<ParsedBlock>)
        ensures
            record_models_of_blocks(r@) == self@.parsed_blocks,
    {
        &self.parsed_blocks
    }
}

} // verus!
