use rusty_tpch::chunk::{Chunk, ColumnData};
use rusty_tpch::rows::{
    write_customer, write_lineitem, write_nation, write_orders, write_part, write_partsupp,
    write_region, write_supplier, CustomerRow, LineItemRow, NationRow, OrderRow, PartRow,
    PartSuppRow, RegionRow, SupplierRow,
};

fn int64(chunk: &Chunk, col: usize) -> Vec<i64> {
    match &chunk.columns[col] {
        ColumnData::Int64(values) => values.clone(),
        other => panic!("column {col} is {other:?}"),
    }
}

fn int32(chunk: &Chunk, col: usize) -> Vec<i32> {
    match &chunk.columns[col] {
        ColumnData::Int32(values) => values.clone(),
        other => panic!("column {col} is {other:?}"),
    }
}

fn text(chunk: &Chunk, col: usize) -> Vec<&str> {
    match &chunk.columns[col] {
        ColumnData::Text(values) => values.iter().map(|v| v.as_str()).collect(),
        other => panic!("column {col} is {other:?}"),
    }
}

#[test]
fn nation_and_region_rows_become_columns() {
    let chunk = write_nation(&vec![
        NationRow { n_nationkey: 0, n_name: "ALGERIA", n_regionkey: 5, n_comment: "first" },
        NationRow { n_nationkey: 1, n_name: "ARGENTINA", n_regionkey: 6, n_comment: "second" },
    ]);
    assert_eq!(chunk.len, 2);
    assert_eq!(chunk.columns.len(), 4);
    assert_eq!(int64(&chunk, 0), vec![0, 1]);
    assert_eq!(text(&chunk, 1), vec!["ALGERIA", "ARGENTINA"]);
    assert_eq!(int64(&chunk, 2), vec![5, 6]);
    assert_eq!(text(&chunk, 3), vec!["first", "second"]);

    let chunk =
        write_region(&vec![RegionRow { r_regionkey: 4, r_name: "MIDDLE EAST", r_comment: "c" }]);
    assert_eq!((chunk.len, chunk.columns.len()), (1, 3));
    assert_eq!(int64(&chunk, 0), vec![4]);
    assert_eq!(text(&chunk, 1), vec!["MIDDLE EAST"]);
    assert_eq!(text(&chunk, 2), vec!["c"]);
}

#[test]
fn part_and_partsupp_rows_become_columns() {
    let chunk = write_part(&vec![PartRow {
        p_partkey: 1,
        p_name: "name".to_string(),
        p_mfgr: "Manufacturer#1".to_string(),
        p_brand: "Brand#13".to_string(),
        p_type: "PROMO",
        p_size: 7,
        p_container: "JUMBO PKG",
        p_retailprice: 90100,
        p_comment: "comment",
    }]);
    assert_eq!((chunk.len, chunk.columns.len()), (1, 9));
    assert_eq!(int64(&chunk, 0), vec![1]);
    assert_eq!(text(&chunk, 1), vec!["name"]);
    assert_eq!(text(&chunk, 2), vec!["Manufacturer#1"]);
    assert_eq!(text(&chunk, 3), vec!["Brand#13"]);
    assert_eq!(text(&chunk, 4), vec!["PROMO"]);
    assert_eq!(int32(&chunk, 5), vec![7]);
    assert_eq!(text(&chunk, 6), vec!["JUMBO PKG"]);
    assert_eq!(int64(&chunk, 7), vec![90100]);
    assert_eq!(text(&chunk, 8), vec!["comment"]);

    let chunk = write_partsupp(&vec![PartSuppRow {
        ps_partkey: 1,
        ps_suppkey: 2,
        ps_availqty: 3325,
        ps_supplycost: 77164,
        ps_comment: "even",
    }]);
    assert_eq!((chunk.len, chunk.columns.len()), (1, 5));
    assert_eq!(int64(&chunk, 0), vec![1]);
    assert_eq!(int64(&chunk, 1), vec![2]);
    assert_eq!(int32(&chunk, 2), vec![3325]);
    assert_eq!(int64(&chunk, 3), vec![77164]);
    assert_eq!(text(&chunk, 4), vec!["even"]);
}

#[test]
fn supplier_and_customer_rows_become_columns() {
    let chunk = write_supplier(&vec![SupplierRow {
        s_suppkey: 1,
        s_name: "Supplier#000000001".to_string(),
        s_address: "address".to_string(),
        s_nationkey: 17,
        s_phone: "27-918-335-1736".to_string(),
        s_acctbal: -575594,
        s_comment: "each slyly".to_string(),
    }]);
    assert_eq!((chunk.len, chunk.columns.len()), (1, 7));
    assert_eq!(int64(&chunk, 0), vec![1]);
    assert_eq!(text(&chunk, 1), vec!["Supplier#000000001"]);
    assert_eq!(text(&chunk, 2), vec!["address"]);
    assert_eq!(int64(&chunk, 3), vec![17]);
    assert_eq!(text(&chunk, 4), vec!["27-918-335-1736"]);
    assert_eq!(int64(&chunk, 5), vec![-575594]);
    assert_eq!(text(&chunk, 6), vec!["each slyly"]);

    let chunk = write_customer(&vec![CustomerRow {
        c_custkey: 1,
        c_name: "Customer#000000001".to_string(),
        c_address: "address".to_string(),
        c_nationkey: 15,
        c_phone: "25-989-741-2988".to_string(),
        c_acctbal: 71156,
        c_mktsegment: "BUILDING",
        c_comment: "to the even",
    }]);
    assert_eq!((chunk.len, chunk.columns.len()), (1, 8));
    assert_eq!(int64(&chunk, 0), vec![1]);
    assert_eq!(text(&chunk, 1), vec!["Customer#000000001"]);
    assert_eq!(text(&chunk, 2), vec!["address"]);
    assert_eq!(int64(&chunk, 3), vec![15]);
    assert_eq!(text(&chunk, 4), vec!["25-989-741-2988"]);
    assert_eq!(int64(&chunk, 5), vec![71156]);
    assert_eq!(text(&chunk, 6), vec!["BUILDING"]);
    assert_eq!(text(&chunk, 7), vec!["to the even"]);
}

#[test]
fn order_rows_become_columns() {
    let chunk = write_orders(&vec![OrderRow {
        o_orderkey: 1,
        o_custkey: 37,
        o_orderstatus: "O".to_string(),
        o_totalprice: 13125181,
        o_orderdate: 9497,
        o_orderpriority: "5-LOW",
        o_clerk: "Clerk#000000951".to_string(),
        o_shippriority: 0,
        o_comment: "sleep furiously",
    }]);
    assert_eq!((chunk.len, chunk.columns.len()), (1, 9));
    assert_eq!(int64(&chunk, 0), vec![1]);
    assert_eq!(int64(&chunk, 1), vec![37]);
    assert_eq!(text(&chunk, 2), vec!["O"]);
    assert_eq!(int64(&chunk, 3), vec![13125181]);
    assert_eq!(int32(&chunk, 4), vec![9497]);
    assert_eq!(text(&chunk, 5), vec!["5-LOW"]);
    assert_eq!(text(&chunk, 6), vec!["Clerk#000000951"]);
    assert_eq!(int32(&chunk, 7), vec![0]);
    assert_eq!(text(&chunk, 8), vec!["sleep furiously"]);
}

#[test]
fn lineitem_rows_become_columns_with_a_scaled_quantity() {
    let chunk = write_lineitem(&vec![LineItemRow {
        l_orderkey: 1,
        l_partkey: 156,
        l_suppkey: 4,
        l_linenumber: 2,
        l_quantity: 17,
        l_extendedprice: 1795455,
        l_discount: 4,
        l_tax: 3,
        l_returnflag: "N",
        l_linestatus: "O",
        l_shipdate: 9568,
        l_commitdate: 9538,
        l_receiptdate: 9577,
        l_shipinstruct: "DELIVER IN PERSON",
        l_shipmode: "TRUCK",
        l_comment: "egular courts above the",
    }]);
    assert_eq!((chunk.len, chunk.columns.len()), (1, 16));
    assert_eq!(int64(&chunk, 0), vec![1]);
    assert_eq!(int64(&chunk, 1), vec![156]);
    assert_eq!(int64(&chunk, 2), vec![4]);
    assert_eq!(int32(&chunk, 3), vec![2]);
    assert_eq!(int64(&chunk, 4), vec![1700]);
    assert_eq!(int64(&chunk, 5), vec![1795455]);
    assert_eq!(int64(&chunk, 6), vec![4]);
    assert_eq!(int64(&chunk, 7), vec![3]);
    assert_eq!(text(&chunk, 8), vec!["N"]);
    assert_eq!(text(&chunk, 9), vec!["O"]);
    assert_eq!(int32(&chunk, 10), vec![9568]);
    assert_eq!(int32(&chunk, 11), vec![9538]);
    assert_eq!(int32(&chunk, 12), vec![9577]);
    assert_eq!(text(&chunk, 13), vec!["DELIVER IN PERSON"]);
    assert_eq!(text(&chunk, 14), vec!["TRUCK"]);
    assert_eq!(text(&chunk, 15), vec!["egular courts above the"]);
}

#[test]
fn no_rows_make_an_empty_chunk_with_all_columns() {
    let chunk = write_lineitem(&Vec::new());
    assert_eq!((chunk.len, chunk.columns.len()), (0, 16));
    assert_eq!(int64(&chunk, 4), Vec::<i64>::new());
    assert_eq!(text(&chunk, 15), Vec::<&str>::new());
}
