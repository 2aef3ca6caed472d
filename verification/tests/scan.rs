use rusty_tpch::chunk::Chunk;
use rusty_tpch::request::ParameterType;
use rusty_tpch::rows::{write_region, RegionRow};
use rusty_tpch::scan::{bind_tpch, scan_step, tpch_parameters, ScanPlan, TpchTableBindData};
use rusty_tpch::table::{all_tables, TpchTable};

#[test]
fn a_scan_is_bound_to_a_table() {
    assert_eq!(tpch_parameters(), vec![ParameterType::Double, ParameterType::Varchar]);
    assert_eq!(
        bind_tpch(Ok("0.1".to_string()), "Orders"),
        Ok(TpchTableBindData { sf: "0.1".to_string(), table: TpchTable::Orders })
    );
}

#[test]
fn a_scan_is_refused() {
    assert_eq!(
        bind_tpch(Ok("1".to_string()), "Order"),
        Err("unknown TPC-H table: Order".to_string())
    );
    assert_eq!(
        bind_tpch(Err("invalid float literal".to_string()), "Order"),
        Err("invalid scale factor: invalid float literal".to_string())
    );
}

#[test]
fn one_partition_for_each_thread() {
    let plan = ScanPlan::new(TpchTable::Lineitem, Some(10));
    assert_eq!(plan, ScanPlan { part_count: 10, queue: 20, max_threads: 10 });
    assert_eq!(plan.parts(), (1..=10).collect::<Vec<i32>>());
}

#[test]
fn fixed_tables_are_not_split() {
    for table in [TpchTable::Nation, TpchTable::Region] {
        let plan = ScanPlan::new(table, Some(10));
        assert_eq!(plan, ScanPlan { part_count: 1, queue: 2, max_threads: 10 });
        assert_eq!(plan.parts(), vec![1]);
    }
}

#[test]
fn four_threads_where_the_parallelism_is_unknown() {
    for table in all_tables() {
        let plan = ScanPlan::new(table, None);
        assert_eq!(plan.part_count, if table.is_partitionable() { 4 } else { 1 });
        assert_eq!(plan.max_threads, 4);
    }
}

#[test]
fn a_received_chunk_is_passed_on_and_none_ends_the_scan() {
    let rows = vec![RegionRow { r_regionkey: 0, r_name: "AFRICA", r_comment: "" }];
    let chunk = scan_step(Some(write_region(&rows)));
    assert_eq!((chunk.len, chunk.columns.len()), (1, 3));
    let end: Chunk = scan_step(None);
    assert_eq!((end.len, end.columns.len()), (0, 0));
}
