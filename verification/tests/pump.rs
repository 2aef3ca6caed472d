use rusty_tpch::chunk::{Chunk, ColumnData};
use rusty_tpch::pump::{next_batch, pump, pump_step, JobSender, PumpEnd};
use rusty_tpch::rows::{write_region, RegionRow};
use rusty_tpch::table::TpchTable;
use std::sync::mpsc::sync_channel;
use tpchgen::generators::OrderGenerator;

fn region(key: i64) -> Chunk {
    write_region(&vec![RegionRow { r_regionkey: key, r_name: "ASIA", r_comment: "far" }])
}

#[test]
fn a_sent_chunk_is_taken_until_the_receiver_goes_away() {
    let (tx, rx) = sync_channel::<Chunk>(2);
    let mut sender = JobSender::new(TpchTable::Region, tx);
    assert!(sender.send(region(2)));
    assert!(sender.send(region(4)));
    for key in [2, 4] {
        let received = rx.recv().unwrap();
        assert_eq!((received.len, received.columns.len()), (1, 3));
        assert!(matches!(&received.columns[0], ColumnData::Int64(values) if *values == vec![key]));
        assert!(matches!(&received.columns[1], ColumnData::Text(values) if *values == vec!["ASIA"]));
        assert!(matches!(&received.columns[2], ColumnData::Text(values) if *values == vec!["far"]));
    }
    assert!(rx.try_recv().is_err());
    drop(rx);
    assert!(!sender.send(region(3)));
}

#[test]
fn nothing_is_drawn_ahead() {
    // 4500 orders: two full batches and a third of 404.
    let (tx, rx) = sync_channel::<Chunk>(10);
    let mut sender = JobSender::new(TpchTable::Orders, tx);
    let mut orders = OrderGenerator::new(0.003, 1, 1).iter();
    assert_eq!(pump_step(&mut orders, &mut sender), None);
    drop(rx);
    assert_eq!(pump(&mut orders, &mut sender), PumpEnd::Disconnected);
    // One batch was taken and one refused; the third has stayed where it was.
    assert_eq!(next_batch(&mut orders).len(), 404);
    assert_eq!(pump_step(&mut orders, &mut sender), Some(PumpEnd::Exhausted));
    assert_eq!(pump(&mut orders, &mut sender), PumpEnd::Exhausted);
}
