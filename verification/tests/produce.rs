use rusty_tpch::chunk::{Chunk, ColumnData};
use rusty_tpch::produce::{check_scale, produce, produce_checked, ProduceError};
use rusty_tpch::pump::{JobSender, PumpEnd};
use rusty_tpch::scan::scan_step;
use rusty_tpch::table::{all_tables, TpchTable};
use std::sync::mpsc::sync_channel;

/// The chunks of one partition, received as a scan receives them.
fn chunks(table: TpchTable, scale: &str, part: i32, part_count: i32) -> Vec<Chunk> {
    let (tx, rx) = sync_channel::<Chunk>(100);
    let mut sender = JobSender::new(table, tx);
    assert_eq!(check_scale(table, scale), Ok(()));
    assert_eq!(produce(table, scale, part, part_count, &mut sender), PumpEnd::Exhausted);
    drop(sender);
    let mut received = Vec::new();
    loop {
        let chunk = scan_step(rx.recv().ok());
        if chunk.len == 0 {
            return received;
        }
        received.push(chunk);
    }
}

fn cell(chunk: &Chunk, col: usize, row: usize) -> String {
    match &chunk.columns[col] {
        ColumnData::Int64(values) => values[row].to_string(),
        ColumnData::Int32(values) => values[row].to_string(),
        ColumnData::Text(values) => values[row].clone(),
    }
}

fn row(chunk: &Chunk, row: usize) -> String {
    let cells: Vec<String> = (0..chunk.columns.len()).map(|col| cell(chunk, col, row)).collect();
    cells.join("|")
}

fn lens(chunks: &[Chunk]) -> Vec<usize> {
    chunks.iter().map(|chunk| chunk.len).collect()
}

fn rows(chunks: &[Chunk]) -> Vec<String> {
    let mut rows = Vec::new();
    for chunk in chunks {
        for i in 0..chunk.len {
            rows.push(row(chunk, i));
        }
    }
    rows
}

#[test]
fn fixed_tables_parts_and_suppliers() {
    let nation = chunks(TpchTable::Nation, "1", 1, 1);
    assert_eq!(lens(&nation), vec![25]);
    assert_eq!(
        row(&nation[0], 0),
        "0|ALGERIA|0| haggle. carefully final deposits detect slyly agai"
    );
    // Every partition of a fixed table would hold all of it again, whatever its number.
    for (part, part_count) in [(2, 3), (0, 0), (-1, 5)] {
        let again = chunks(TpchTable::Nation, "7.5", part, part_count);
        assert_eq!(rows(&again), rows(&nation));
    }

    let region = chunks(TpchTable::Region, "1", 1, 1);
    assert_eq!(lens(&region), vec![5]);
    assert_eq!(row(&region[0], 1), "1|AMERICA|hs use ironic, even requests. s");

    let part = chunks(TpchTable::Part, "0.02", 1, 1);
    assert_eq!(lens(&part), vec![2048, 1952]);
    assert_eq!(
        row(&part[0], 0),
        "1|goldenrod lavender spring chocolate lace|Manufacturer#1|Brand#13|\
         PROMO BURNISHED COPPER|7|JUMBO PKG|90100|ly. slyly ironi"
    );

    let supplier = chunks(TpchTable::Supplier, "0.01", 1, 1);
    assert_eq!(lens(&supplier), vec![100]);
    assert_eq!(
        row(&supplier[0], 0),
        "1|Supplier#000000001| N kD4on9OM Ipw3,gf0JBoQDd7tgrzrddZ|17|27-918-335-1736|575594|\
         each slyly above the careful"
    );
}

#[test]
fn customers_orders_and_their_items() {
    let customer = chunks(TpchTable::Customer, "0.01", 1, 1);
    assert_eq!(lens(&customer), vec![1500]);
    assert_eq!(
        row(&customer[0], 0),
        "1|Customer#000000001|IVhzIApeRb ot,c,E|15|25-989-741-2988|71156|BUILDING|\
         to the even, regular platelets. regular, ironic epitaphs nag e"
    );

    let partsupp = chunks(TpchTable::Partsupp, "0.001", 1, 1);
    assert_eq!(lens(&partsupp), vec![800]);
    assert_eq!(
        row(&partsupp[0], 0).split('|').take(4).collect::<Vec<_>>(),
        vec!["1", "2", "3325", "77164"]
    );

    // The order date 1996-01-02 is day 9497 since the Unix epoch.
    let orders = chunks(TpchTable::Orders, "0.001", 1, 1);
    assert_eq!(lens(&orders), vec![1500]);
    assert_eq!(
        row(&orders[0], 0),
        "1|37|O|13125181|9497|5-LOW|Clerk#000000951|0|nstructions sleep furiously among "
    );

    // A quantity of 17 is stored as 17.00; 1996-03-13 is day 9568 since the Unix epoch.
    let lineitem = chunks(TpchTable::Lineitem, "0.001", 1, 1);
    assert_eq!(lens(&lineitem), vec![2048, 2048, 1909]);
    assert_eq!(
        row(&lineitem[0], 0),
        "1|156|4|1|1700|1795455|4|2|N|O|9568|9538|9577|DELIVER IN PERSON|TRUCK|\
         egular courts above the"
    );
}

#[test]
fn partitions_together_are_the_table() {
    for table in all_tables() {
        if !table.is_partitionable() {
            continue;
        }
        let whole = rows(&chunks(table, "0.0011", 1, 1));
        for part_count in [3, 4] {
            let mut parted = Vec::new();
            for part in 1..=part_count {
                parted.extend(rows(&chunks(table, "0.0011", part, part_count)));
            }
            assert_eq!(parted, whole);
        }
    }
    // 1650 orders in four partitions: an equal share each, and the rest for the last.
    assert_eq!(lens(&chunks(TpchTable::Orders, "0.0011", 1, 4)), vec![412]);
    assert_eq!(lens(&chunks(TpchTable::Orders, "0.0011", 4, 4)), vec![414]);
}

#[test]
fn the_last_partition_of_a_huge_table_can_be_opened() {
    let (tx, rx) = sync_channel::<Chunk>(100);
    drop(rx);
    for (table, scale) in [
        (TpchTable::Part, "5e11"),
        (TpchTable::Partsupp, "5.7e12"),
        (TpchTable::Customer, "6.8e12"),
        (TpchTable::Supplier, "1.02e14"),
    ] {
        let mut sender = JobSender::new(table, tx.clone());
        assert_eq!(
            produce_checked(table, scale, i32::MAX, i32::MAX, &mut sender),
            Ok(PumpEnd::Disconnected)
        );
    }
    let mut sender = JobSender::new(TpchTable::Lineitem, tx);
    assert_eq!(
        produce_checked(TpchTable::Lineitem, "-4e11", i32::MAX, i32::MAX, &mut sender),
        Ok(PumpEnd::Exhausted)
    );
}

#[test]
fn more_partitions_than_rows() {
    // One supplier, which falls to the last partition.
    assert_eq!(lens(&chunks(TpchTable::Supplier, "0.0001", 1, 3)), Vec::<usize>::new());
    let last = chunks(TpchTable::Supplier, "0.0001", 3, 3);
    assert_eq!(lens(&last), vec![1]);
    assert_eq!(rows(&last), rows(&chunks(TpchTable::Supplier, "0.0001", 1, 1)));
}

#[test]
fn a_drained_scan_yields_the_table_once() {
    let table = TpchTable::Orders;
    let (tx, rx) = sync_channel::<Chunk>(100);
    // The partitions arrive in an order of their own.
    for part in [3, 1, 2] {
        let mut sender = JobSender::new(table, tx.clone());
        assert_eq!(produce_checked(table, "0.003", part, 3, &mut sender), Ok(PumpEnd::Exhausted));
    }
    drop(tx);
    let mut drained = Vec::new();
    loop {
        let chunk = scan_step(rx.recv().ok());
        if chunk.len == 0 {
            break;
        }
        assert!(chunk.len <= 2048);
        drained.push(chunk);
    }
    assert_eq!(scan_step(rx.recv().ok()).len, 0);
    let mut drained = rows(&drained);
    let mut whole = rows(&chunks(table, "0.003", 1, 1));
    drained.sort();
    whole.sort();
    assert_eq!(drained.len(), 4500);
    assert_eq!(drained, whole);
}

#[test]
fn a_receiver_that_goes_away_stops_the_generator() {
    let (tx, rx) = sync_channel::<Chunk>(100);
    drop(rx);
    let mut sender = JobSender::new(TpchTable::Orders, tx);
    assert_eq!(
        produce_checked(TpchTable::Orders, "0.01", 1, 1, &mut sender),
        Ok(PumpEnd::Disconnected)
    );
    // Without rows there is nothing to send and nobody to miss.
    for scale in ["0", "-1", "NaN"] {
        let (tx, rx) = sync_channel::<Chunk>(1);
        drop(rx);
        let mut sender = JobSender::new(TpchTable::Lineitem, tx);
        assert_eq!(
            produce_checked(TpchTable::Lineitem, scale, 1, 1, &mut sender),
            Ok(PumpEnd::Exhausted)
        );
    }
}

#[test]
fn a_scale_factor_that_is_no_number_produces_nothing() {
    for table in all_tables() {
        for scale in ["", "one", "1,5", " 1"] {
            let (tx, rx) = sync_channel::<Chunk>(1);
            let mut sender = JobSender::new(table, tx);
            assert_eq!(
                produce_checked(table, scale, 1, 1, &mut sender),
                Err(ProduceError::InvalidScale)
            );
            drop(sender);
            assert!(rx.recv().is_err());
        }
    }
}

#[test]
fn an_unsupported_scale_factor_produces_nothing() {
    let (tx, rx) = sync_channel::<Chunk>(1);
    let mut sender = JobSender::new(TpchTable::Lineitem, tx);
    assert_eq!(
        produce_checked(TpchTable::Lineitem, "0.00005", 1, 1, &mut sender),
        Err(ProduceError::UnsupportedScale)
    );
    drop(sender);
    assert!(rx.recv().is_err());
}

#[test]
fn scale_factors_that_the_generators_cannot_compute() {
    // No supplier for a line item or a part supplier to name.
    assert_eq!(
        check_scale(TpchTable::Lineitem, "0.00005"),
        Err(ProduceError::UnsupportedScale)
    );
    assert_eq!(
        check_scale(TpchTable::Partsupp, "0.00005"),
        Err(ProduceError::UnsupportedScale)
    );
    assert_eq!(check_scale(TpchTable::Lineitem, "0.0001"), Ok(()));
    assert_eq!(check_scale(TpchTable::Orders, "0.00005"), Ok(()));
    // Too many keys to draw from.
    assert_eq!(check_scale(TpchTable::Orders, "29999"), Ok(()));
    assert_eq!(check_scale(TpchTable::Lineitem, "29999"), Ok(()));
    assert_eq!(check_scale(TpchTable::Orders, "30000"), Err(ProduceError::UnsupportedScale));
    assert_eq!(check_scale(TpchTable::Lineitem, "30000"), Err(ProduceError::UnsupportedScale));
    assert_eq!(check_scale(TpchTable::Customer, "30000"), Ok(()));
    assert_eq!(
        check_scale(TpchTable::Orders, "10737.41824"),
        Err(ProduceError::UnsupportedScale)
    );
    // Positions that do not fit, and those that just do.
    assert_eq!(check_scale(TpchTable::Part, "5e11"), Ok(()));
    assert_eq!(check_scale(TpchTable::Part, "5.1e11"), Err(ProduceError::UnsupportedScale));
    assert_eq!(check_scale(TpchTable::Partsupp, "5.7e12"), Ok(()));
    assert_eq!(check_scale(TpchTable::Partsupp, "5.8e12"), Err(ProduceError::UnsupportedScale));
    assert_eq!(check_scale(TpchTable::Customer, "6.8e12"), Ok(()));
    assert_eq!(check_scale(TpchTable::Customer, "6.9e12"), Err(ProduceError::UnsupportedScale));
    assert_eq!(check_scale(TpchTable::Supplier, "1.02e14"), Ok(()));
    assert_eq!(check_scale(TpchTable::Supplier, "1.03e14"), Err(ProduceError::UnsupportedScale));
    assert_eq!(check_scale(TpchTable::Orders, "-8e11"), Ok(()));
    assert_eq!(check_scale(TpchTable::Orders, "-9e11"), Err(ProduceError::UnsupportedScale));
    assert_eq!(check_scale(TpchTable::Lineitem, "-4e11"), Ok(()));
    assert_eq!(check_scale(TpchTable::Lineitem, "-5e11"), Err(ProduceError::UnsupportedScale));
    for table in all_tables() {
        let expected = if table.is_partitionable() {
            Err(ProduceError::UnsupportedScale)
        } else {
            Ok(())
        };
        assert_eq!(check_scale(table, "inf"), expected);
        assert_eq!(check_scale(table, "-inf"), expected);
        assert_eq!(check_scale(table, "1"), Ok(()));
        assert_eq!(check_scale(table, "0"), Ok(()));
    }
}
