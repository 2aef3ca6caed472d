use rusty_tpch::schema::{bigint, date, decimal, integer, varchar, ColumnType, Storage};
use rusty_tpch::table::{all_tables, TpchTable};

#[test]
fn column_types_and_storage() {
    assert_eq!(bigint(), ColumnType::Bigint);
    assert_eq!(integer(), ColumnType::Integer);
    assert_eq!(varchar(), ColumnType::Varchar);
    assert_eq!(date(), ColumnType::Date);
    assert_eq!(decimal(), ColumnType::Decimal { width: 15, scale: 2 });
    assert_eq!(bigint().storage(), Storage::Int64);
    assert_eq!(decimal().storage(), Storage::Int64);
    assert_eq!(integer().storage(), Storage::Int32);
    assert_eq!(date().storage(), Storage::Int32);
    assert_eq!(varchar().storage(), Storage::Text);
}

#[test]
fn small_schemas() {
    assert_eq!(
        TpchTable::Nation.schema(),
        vec![
            ("n_nationkey", bigint()),
            ("n_name", varchar()),
            ("n_regionkey", bigint()),
            ("n_comment", varchar()),
        ]
    );
    assert_eq!(
        TpchTable::Region.schema(),
        vec![("r_regionkey", bigint()), ("r_name", varchar()), ("r_comment", varchar())]
    );
    assert_eq!(
        TpchTable::Partsupp.schema(),
        vec![
            ("ps_partkey", bigint()),
            ("ps_suppkey", bigint()),
            ("ps_availqty", integer()),
            ("ps_supplycost", decimal()),
            ("ps_comment", varchar()),
        ]
    );
}

#[test]
fn large_schemas() {
    assert_eq!(
        TpchTable::Orders.schema(),
        vec![
            ("o_orderkey", bigint()),
            ("o_custkey", bigint()),
            ("o_orderstatus", varchar()),
            ("o_totalprice", decimal()),
            ("o_orderdate", date()),
            ("o_orderpriority", varchar()),
            ("o_clerk", varchar()),
            ("o_shippriority", integer()),
            ("o_comment", varchar()),
        ]
    );
    assert_eq!(
        TpchTable::Lineitem.schema(),
        vec![
            ("l_orderkey", bigint()),
            ("l_partkey", bigint()),
            ("l_suppkey", bigint()),
            ("l_linenumber", integer()),
            ("l_quantity", decimal()),
            ("l_extendedprice", decimal()),
            ("l_discount", decimal()),
            ("l_tax", decimal()),
            ("l_returnflag", varchar()),
            ("l_linestatus", varchar()),
            ("l_shipdate", date()),
            ("l_commitdate", date()),
            ("l_receiptdate", date()),
            ("l_shipinstruct", varchar()),
            ("l_shipmode", varchar()),
            ("l_comment", varchar()),
        ]
    );
}

#[test]
fn column_counts_and_prefixes() {
    let counts: Vec<usize> = all_tables().iter().map(|t| t.schema().len()).collect();
    assert_eq!(counts, vec![4, 3, 9, 7, 5, 8, 9, 16]);
    let prefixes = ["n_", "r_", "p_", "s_", "ps_", "c_", "o_", "l_"];
    for (table, prefix) in all_tables().iter().zip(prefixes) {
        for (name, _) in table.schema() {
            assert!(name.starts_with(prefix));
        }
    }
}
