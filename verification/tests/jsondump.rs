use jsondump::Block;
use jsondump::JsonDump;
use jsondump::Tx;
use jsondump::TxOutput;

fn tx(hash: Vec<u8>, input_count: usize, addresses: Vec<Option<String>>) -> Tx {
    Tx {
        hash,
        input_count,
        outputs: addresses.into_iter().map(|address| TxOutput { address }).collect(),
    }
}

#[test]
fn new_starts_empty() {
    let d = JsonDump::new(String::from("dump"));
    assert_eq!(d.dump_folder(), "dump");
    assert_eq!(d.start_height(), 0);
    assert_eq!(d.end_height(), 0);
    assert_eq!(d.tx_count(), 0);
    assert_eq!(d.in_count(), 0);
    assert_eq!(d.out_count(), 0);
    assert!(d.blocks().is_empty());
}

#[test]
fn empty_block_yields_empty_record_and_leaves_counters() {
    let mut d = JsonDump::new(String::from("dump"));
    d.on_start(10);
    let block = Block { header_hash: vec![0xab, 0xcd], timestamp: 42, txs: vec![] };
    d.on_block(&block, 10);
    assert_eq!(d.tx_count(), 0);
    assert_eq!(d.in_count(), 0);
    assert_eq!(d.out_count(), 0);
    assert_eq!(d.blocks().len(), 1);
    let rec = &d.blocks()[0];
    assert_eq!(rec.block_hash, "cdab");
    assert_eq!(rec.timestamp, 42);
    assert!(rec.tx_in.is_empty());
    assert!(rec.tx_out.is_empty());
}

#[test]
fn counters_and_records_follow_the_block_shape() {
    let mut d = JsonDump::new(String::from("dump"));
    d.on_start(0);
    let block = Block {
        header_hash: vec![0x01, 0x02],
        timestamp: 1000,
        txs: vec![
            tx(vec![0x11, 0x22], 2, vec![Some(String::from("addr-a"))]),
            tx(vec![0x33, 0x44], 1, vec![None, Some(String::from("addr-b"))]),
        ],
    };
    d.on_block(&block, 1);
    assert_eq!(d.tx_count(), 2);
    assert_eq!(d.in_count(), 3);
    assert_eq!(d.out_count(), 3);
    let rec = &d.blocks()[0];
    assert_eq!(rec.block_hash, "0201");
    assert_eq!(rec.tx_in.len(), 3);
    assert_eq!(rec.tx_out.len(), 3);
    // Transaction order, then input/output order within each transaction.
    assert_eq!(rec.tx_in[0].tx, "2211");
    assert_eq!(rec.tx_in[1].tx, "2211");
    assert_eq!(rec.tx_in[2].tx, "4433");
    assert_eq!(rec.tx_out[0].tx, "2211");
    assert_eq!(rec.tx_out[1].tx, "4433");
    assert_eq!(rec.tx_out[2].tx, "4433");
}

#[test]
fn input_records_never_carry_an_address_and_outputs_pass_it_through() {
    let mut d = JsonDump::new(String::from("dump"));
    d.on_start(0);
    let block = Block {
        header_hash: vec![0x00],
        timestamp: 0,
        txs: vec![tx(vec![0x7f], 2, vec![Some(String::from("1BoatSLRHtKNngkdXEeobR76b53LETtpyT")), None])],
    };
    d.on_block(&block, 5);
    let rec = &d.blocks()[0];
    for input in &rec.tx_in {
        assert_eq!(input.address, None);
    }
    assert_eq!(
        rec.tx_out[0].address.as_deref(),
        Some("1BoatSLRHtKNngkdXEeobR76b53LETtpyT")
    );
    assert_eq!(rec.tx_out[1].address, None);
}

#[test]
fn end_to_end_scenario_two_blocks() {
    let mut d = JsonDump::new(String::from("out"));
    d.on_start(100);
    let block_a = Block {
        header_hash: vec![0xaa],
        timestamp: 1,
        txs: vec![tx(vec![0x01], 2, vec![Some(String::from("addr"))])],
    };
    let block_b = Block { header_hash: vec![0xbb], timestamp: 2, txs: vec![] };
    d.on_block(&block_a, 100);
    d.on_block(&block_b, 101);
    d.on_complete(102);
    assert_eq!(d.blocks().len(), 2);
    let first = &d.blocks()[0];
    assert_eq!(first.tx_in.len(), 2);
    assert_eq!(first.tx_out.len(), 1);
    let second = &d.blocks()[1];
    assert!(second.tx_in.is_empty());
    assert!(second.tx_out.is_empty());
    assert_eq!(d.tx_count(), 1);
    assert_eq!(d.in_count(), 2);
    assert_eq!(d.out_count(), 1);
    assert_eq!(d.start_height(), 100);
    assert_eq!(d.end_height(), 102);
}

#[test]
fn finish_preserves_records_in_call_order() {
    let mut d = JsonDump::new(String::from("out"));
    d.on_start(0);
    for ts in 0..5u32 {
        let block = Block { header_hash: vec![ts as u8], timestamp: ts, txs: vec![] };
        d.on_block(&block, 1_000_000 + ts as u64);
    }
    d.on_complete(7);
    assert_eq!(d.blocks().len(), 5);
    for (i, rec) in d.blocks().iter().enumerate() {
        assert_eq!(rec.timestamp, i as u32);
    }
}
