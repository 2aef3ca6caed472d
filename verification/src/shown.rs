//! What a reader of a result sees: every generated field under its own name, in its own column
//! and read as its type tells.

use crate::chunk::{
    int32_column, int64_column, row_conforms, text_column, Chunk, ColumnData, Value,
};
use crate::rows::{
    stored_lineitem, CustomerRow, LineItemRow, NationRow, OrderRow, PartRow, PartSuppRow,
    RegionRow, SupplierRow,
};
use crate::schema::{storage_of, storages, ColumnType};
use crate::table::TpchTable;
use vstd::prelude::*;

verus! {

/// A value as DuckDB shows it.
pub enum Shown {
    /// A whole number.
    Number(int),
    /// A decimal of at most `width` digits: the number divided by the `scale`-th power of ten.
    Decimal { number: int, width: int, scale: int },
    /// The day so many days after 1970-01-01.
    Day(int),
    Text(Seq<char>),
    /// The storage does not go with the type.
    Garbage,
}

/// How DuckDB shows a stored value in a column of this type.
pub open spec fn shown(column: ColumnType, value: Value) -> Shown {
    match (column, value) {
        (ColumnType::Bigint, Value::Int64(x)) => Shown::Number(x as int),
        (ColumnType::Integer, Value::Int32(x)) => Shown::Number(x as int),
        (ColumnType::Date, Value::Int32(x)) => Shown::Day(x as int),
        (ColumnType::Decimal { width, scale }, Value::Int64(x)) => Shown::Decimal {
            number: x as int,
            width: width as int,
            scale: scale as int,
        },
        (ColumnType::Varchar, Value::Text(text)) => Shown::Text(text),
        _ => Shown::Garbage,
    }
}

/// How a row is shown: for each column its name and the value in it.
pub open spec fn shown_row(columns: Seq<(Seq<char>, ColumnType)>, row: Seq<Value>) -> Seq<
    (Seq<char>, Shown),
> {
    Seq::new(row.len(), |c: int| (columns[c].0, shown(columns[c].1, row[c])))
}

/// An amount of `hundredths`, shown with two decimals.
pub open spec fn amount(hundredths: int) -> Shown {
    Shown::Decimal { number: hundredths, width: 15, scale: 2 }
}

/// A row of the nation table is shown with every field in the column of its name: keys and
/// counts as they are, amounts with two decimals, dates as days, and texts letter by letter.
pub proof fn nation_row_is_shown(row: NationRow)
    ensures
        shown_row(TpchTable::Nation.columns(), row@) == seq![
            ("n_nationkey"@, Shown::Number(row.n_nationkey as int)),
            ("n_name"@, Shown::Text(row.n_name@)),
            ("n_regionkey"@, Shown::Number(row.n_regionkey as int)),
            ("n_comment"@, Shown::Text(row.n_comment@)),
        ],
        TpchTable::Nation.columns().len() == 4,
{
    assert(shown_row(TpchTable::Nation.columns(), row@) =~= seq![
        ("n_nationkey"@, Shown::Number(row.n_nationkey as int)),
        ("n_name"@, Shown::Text(row.n_name@)),
        ("n_regionkey"@, Shown::Number(row.n_regionkey as int)),
        ("n_comment"@, Shown::Text(row.n_comment@)),
    ]);
}

/// The columns of a chunk that holds rows of the nation table are the fields of those rows,
/// from top to bottom.
pub proof fn nation_columns_hold_the_fields(rows: Seq<NationRow>, out: Chunk)
    requires
        out.wf(),
        out.storages() == storages(TpchTable::Nation.columns()),
        out.rows() == rows.map_values(|row: NationRow| row@),
    ensures
        out.len == rows.len(),
        out.columns@.len() == 4,
        out.columns@[0] matches ColumnData::Int64(v) && v@ == rows.map_values(
            |r: NationRow| r.n_nationkey,
        ),
        out.columns@[1] matches ColumnData::Text(v) && v@.map_values(|t: String| t@)
            == rows.map_values(|r: NationRow| r.n_name@),
        out.columns@[2] matches ColumnData::Int64(v) && v@ == rows.map_values(
            |r: NationRow| r.n_regionkey,
        ),
        out.columns@[3] matches ColumnData::Text(v) && v@.map_values(|t: String| t@)
            == rows.map_values(|r: NationRow| r.n_comment@),
{
    assert(out.rows().len() == rows.len());
    assert(out.columns@.len() == out.storages().len() == 4);
    assert forall|i: int| 0 <= i < rows.len() implies #[trigger] out.rows()[i] == rows[i]@ by {}
    int64_column(out, 0, rows.map_values(|r: NationRow| r.n_nationkey));
    text_column(out, 1, rows.map_values(|r: NationRow| r.n_name@));
    int64_column(out, 2, rows.map_values(|r: NationRow| r.n_regionkey));
    text_column(out, 3, rows.map_values(|r: NationRow| r.n_comment@));
}

/// A row of the region table is shown with every field in the column of its name: keys and
/// counts as they are, amounts with two decimals, dates as days, and texts letter by letter.
pub proof fn region_row_is_shown(row: RegionRow)
    ensures
        shown_row(TpchTable::Region.columns(), row@) == seq![
            ("r_regionkey"@, Shown::Number(row.r_regionkey as int)),
            ("r_name"@, Shown::Text(row.r_name@)),
            ("r_comment"@, Shown::Text(row.r_comment@)),
        ],
        TpchTable::Region.columns().len() == 3,
{
    assert(shown_row(TpchTable::Region.columns(), row@) =~= seq![
        ("r_regionkey"@, Shown::Number(row.r_regionkey as int)),
        ("r_name"@, Shown::Text(row.r_name@)),
        ("r_comment"@, Shown::Text(row.r_comment@)),
    ]);
}

/// The columns of a chunk that holds rows of the region table are the fields of those rows,
/// from top to bottom.
pub proof fn region_columns_hold_the_fields(rows: Seq<RegionRow>, out: Chunk)
    requires
        out.wf(),
        out.storages() == storages(TpchTable::Region.columns()),
        out.rows() == rows.map_values(|row: RegionRow| row@),
    ensures
        out.len == rows.len(),
        out.columns@.len() == 3,
        out.columns@[0] matches ColumnData::Int64(v) && v@ == rows.map_values(
            |r: RegionRow| r.r_regionkey,
        ),
        out.columns@[1] matches ColumnData::Text(v) && v@.map_values(|t: String| t@)
            == rows.map_values(|r: RegionRow| r.r_name@),
        out.columns@[2] matches ColumnData::Text(v) && v@.map_values(|t: String| t@)
            == rows.map_values(|r: RegionRow| r.r_comment@),
{
    assert(out.rows().len() == rows.len());
    assert(out.columns@.len() == out.storages().len() == 3);
    assert forall|i: int| 0 <= i < rows.len() implies #[trigger] out.rows()[i] == rows[i]@ by {}
    int64_column(out, 0, rows.map_values(|r: RegionRow| r.r_regionkey));
    text_column(out, 1, rows.map_values(|r: RegionRow| r.r_name@));
    text_column(out, 2, rows.map_values(|r: RegionRow| r.r_comment@));
}

/// A row of the part table is shown with every field in the column of its name: keys and
/// counts as they are, amounts with two decimals, dates as days, and texts letter by letter.
pub proof fn part_row_is_shown(row: PartRow)
    ensures
        shown_row(TpchTable::Part.columns(), row@) == seq![
            ("p_partkey"@, Shown::Number(row.p_partkey as int)),
            ("p_name"@, Shown::Text(row.p_name@)),
            ("p_mfgr"@, Shown::Text(row.p_mfgr@)),
            ("p_brand"@, Shown::Text(row.p_brand@)),
            ("p_type"@, Shown::Text(row.p_type@)),
            ("p_size"@, Shown::Number(row.p_size as int)),
            ("p_container"@, Shown::Text(row.p_container@)),
            ("p_retailprice"@, amount(row.p_retailprice as int)),
            ("p_comment"@, Shown::Text(row.p_comment@)),
        ],
        TpchTable::Part.columns().len() == 9,
{
    assert(shown_row(TpchTable::Part.columns(), row@) =~= seq![
        ("p_partkey"@, Shown::Number(row.p_partkey as int)),
        ("p_name"@, Shown::Text(row.p_name@)),
        ("p_mfgr"@, Shown::Text(row.p_mfgr@)),
        ("p_brand"@, Shown::Text(row.p_brand@)),
        ("p_type"@, Shown::Text(row.p_type@)),
        ("p_size"@, Shown::Number(row.p_size as int)),
        ("p_container"@, Shown::Text(row.p_container@)),
        ("p_retailprice"@, amount(row.p_retailprice as int)),
        ("p_comment"@, Shown::Text(row.p_comment@)),
    ]);
}

/// The columns of a chunk that holds rows of the part table are the fields of those rows,
/// from top to bottom.
pub proof fn part_columns_hold_the_fields(rows: Seq<PartRow>, out: Chunk)
    requires
        out.wf(),
        out.storages() == storages(TpchTable::Part.columns()),
        out.rows() == rows.map_values(|row: PartRow| row@),
    ensures
        out.len == rows.len(),
        out.columns@.len() == 9,
        out.columns@[0] matches ColumnData::Int64(v) && v@ == rows.map_values(
            |r: PartRow| r.p_partkey,
        ),
        out.columns@[1] matches ColumnData::Text(v) && v@.map_values(|t: String| t@)
            == rows.map_values(|r: PartRow| r.p_name@),
        out.columns@[2] matches ColumnData::Text(v) && v@.map_values(|t: String| t@)
            == rows.map_values(|r: PartRow| r.p_mfgr@),
        out.columns@[3] matches ColumnData::Text(v) && v@.map_values(|t: String| t@)
            == rows.map_values(|r: PartRow| r.p_brand@),
        out.columns@[4] matches ColumnData::Text(v) && v@.map_values(|t: String| t@)
            == rows.map_values(|r: PartRow| r.p_type@),
        out.columns@[5] matches ColumnData::Int32(v) && v@ == rows.map_values(
            |r: PartRow| r.p_size,
        ),
        out.columns@[6] matches ColumnData::Text(v) && v@.map_values(|t: String| t@)
            == rows.map_values(|r: PartRow| r.p_container@),
        out.columns@[7] matches ColumnData::Int64(v) && v@ == rows.map_values(
            |r: PartRow| r.p_retailprice,
        ),
        out.columns@[8] matches ColumnData::Text(v) && v@.map_values(|t: String| t@)
            == rows.map_values(|r: PartRow| r.p_comment@),
{
    assert(out.rows().len() == rows.len());
    assert(out.columns@.len() == out.storages().len() == 9);
    assert forall|i: int| 0 <= i < rows.len() implies #[trigger] out.rows()[i] == rows[i]@ by {}
    int64_column(out, 0, rows.map_values(|r: PartRow| r.p_partkey));
    text_column(out, 1, rows.map_values(|r: PartRow| r.p_name@));
    text_column(out, 2, rows.map_values(|r: PartRow| r.p_mfgr@));
    text_column(out, 3, rows.map_values(|r: PartRow| r.p_brand@));
    text_column(out, 4, rows.map_values(|r: PartRow| r.p_type@));
    int32_column(out, 5, rows.map_values(|r: PartRow| r.p_size));
    text_column(out, 6, rows.map_values(|r: PartRow| r.p_container@));
    int64_column(out, 7, rows.map_values(|r: PartRow| r.p_retailprice));
    text_column(out, 8, rows.map_values(|r: PartRow| r.p_comment@));
}

/// A row of the supplier table is shown with every field in the column of its name: keys and
/// counts as they are, amounts with two decimals, dates as days, and texts letter by letter.
pub proof fn supplier_row_is_shown(row: SupplierRow)
    ensures
        shown_row(TpchTable::Supplier.columns(), row@) == seq![
            ("s_suppkey"@, Shown::Number(row.s_suppkey as int)),
            ("s_name"@, Shown::Text(row.s_name@)),
            ("s_address"@, Shown::Text(row.s_address@)),
            ("s_nationkey"@, Shown::Number(row.s_nationkey as int)),
            ("s_phone"@, Shown::Text(row.s_phone@)),
            ("s_acctbal"@, amount(row.s_acctbal as int)),
            ("s_comment"@, Shown::Text(row.s_comment@)),
        ],
        TpchTable::Supplier.columns().len() == 7,
{
    assert(shown_row(TpchTable::Supplier.columns(), row@) =~= seq![
        ("s_suppkey"@, Shown::Number(row.s_suppkey as int)),
        ("s_name"@, Shown::Text(row.s_name@)),
        ("s_address"@, Shown::Text(row.s_address@)),
        ("s_nationkey"@, Shown::Number(row.s_nationkey as int)),
        ("s_phone"@, Shown::Text(row.s_phone@)),
        ("s_acctbal"@, amount(row.s_acctbal as int)),
        ("s_comment"@, Shown::Text(row.s_comment@)),
    ]);
}

/// The columns of a chunk that holds rows of the supplier table are the fields of those rows,
/// from top to bottom.
pub proof fn supplier_columns_hold_the_fields(rows: Seq<SupplierRow>, out: Chunk)
    requires
        out.wf(),
        out.storages() == storages(TpchTable::Supplier.columns()),
        out.rows() == rows.map_values(|row: SupplierRow| row@),
    ensures
        out.len == rows.len(),
        out.columns@.len() == 7,
        out.columns@[0] matches ColumnData::Int64(v) && v@ == rows.map_values(
            |r: SupplierRow| r.s_suppkey,
        ),
        out.columns@[1] matches ColumnData::Text(v) && v@.map_values(|t: String| t@)
            == rows.map_values(|r: SupplierRow| r.s_name@),
        out.columns@[2] matches ColumnData::Text(v) && v@.map_values(|t: String| t@)
            == rows.map_values(|r: SupplierRow| r.s_address@),
        out.columns@[3] matches ColumnData::Int64(v) && v@ == rows.map_values(
            |r: SupplierRow| r.s_nationkey,
        ),
        out.columns@[4] matches ColumnData::Text(v) && v@.map_values(|t: String| t@)
            == rows.map_values(|r: SupplierRow| r.s_phone@),
        out.columns@[5] matches ColumnData::Int64(v) && v@ == rows.map_values(
            |r: SupplierRow| r.s_acctbal,
        ),
        out.columns@[6] matches ColumnData::Text(v) && v@.map_values(|t: String| t@)
            == rows.map_values(|r: SupplierRow| r.s_comment@),
{
    assert(out.rows().len() == rows.len());
    assert(out.columns@.len() == out.storages().len() == 7);
    assert forall|i: int| 0 <= i < rows.len() implies #[trigger] out.rows()[i] == rows[i]@ by {}
    int64_column(out, 0, rows.map_values(|r: SupplierRow| r.s_suppkey));
    text_column(out, 1, rows.map_values(|r: SupplierRow| r.s_name@));
    text_column(out, 2, rows.map_values(|r: SupplierRow| r.s_address@));
    int64_column(out, 3, rows.map_values(|r: SupplierRow| r.s_nationkey));
    text_column(out, 4, rows.map_values(|r: SupplierRow| r.s_phone@));
    int64_column(out, 5, rows.map_values(|r: SupplierRow| r.s_acctbal));
    text_column(out, 6, rows.map_values(|r: SupplierRow| r.s_comment@));
}

/// A row of the partsupp table is shown with every field in the column of its name: keys and
/// counts as they are, amounts with two decimals, dates as days, and texts letter by letter.
pub proof fn partsupp_row_is_shown(row: PartSuppRow)
    ensures
        shown_row(TpchTable::Partsupp.columns(), row@) == seq![
            ("ps_partkey"@, Shown::Number(row.ps_partkey as int)),
            ("ps_suppkey"@, Shown::Number(row.ps_suppkey as int)),
            ("ps_availqty"@, Shown::Number(row.ps_availqty as int)),
            ("ps_supplycost"@, amount(row.ps_supplycost as int)),
            ("ps_comment"@, Shown::Text(row.ps_comment@)),
        ],
        TpchTable::Partsupp.columns().len() == 5,
{
    assert(shown_row(TpchTable::Partsupp.columns(), row@) =~= seq![
        ("ps_partkey"@, Shown::Number(row.ps_partkey as int)),
        ("ps_suppkey"@, Shown::Number(row.ps_suppkey as int)),
        ("ps_availqty"@, Shown::Number(row.ps_availqty as int)),
        ("ps_supplycost"@, amount(row.ps_supplycost as int)),
        ("ps_comment"@, Shown::Text(row.ps_comment@)),
    ]);
}

/// The columns of a chunk that holds rows of the partsupp table are the fields of those rows,
/// from top to bottom.
pub proof fn partsupp_columns_hold_the_fields(rows: Seq<PartSuppRow>, out: Chunk)
    requires
        out.wf(),
        out.storages() == storages(TpchTable::Partsupp.columns()),
        out.rows() == rows.map_values(|row: PartSuppRow| row@),
    ensures
        out.len == rows.len(),
        out.columns@.len() == 5,
        out.columns@[0] matches ColumnData::Int64(v) && v@ == rows.map_values(
            |r: PartSuppRow| r.ps_partkey,
        ),
        out.columns@[1] matches ColumnData::Int64(v) && v@ == rows.map_values(
            |r: PartSuppRow| r.ps_suppkey,
        ),
        out.columns@[2] matches ColumnData::Int32(v) && v@ == rows.map_values(
            |r: PartSuppRow| r.ps_availqty,
        ),
        out.columns@[3] matches ColumnData::Int64(v) && v@ == rows.map_values(
            |r: PartSuppRow| r.ps_supplycost,
        ),
        out.columns@[4] matches ColumnData::Text(v) && v@.map_values(|t: String| t@)
            == rows.map_values(|r: PartSuppRow| r.ps_comment@),
{
    assert(out.rows().len() == rows.len());
    assert(out.columns@.len() == out.storages().len() == 5);
    assert forall|i: int| 0 <= i < rows.len() implies #[trigger] out.rows()[i] == rows[i]@ by {}
    int64_column(out, 0, rows.map_values(|r: PartSuppRow| r.ps_partkey));
    int64_column(out, 1, rows.map_values(|r: PartSuppRow| r.ps_suppkey));
    int32_column(out, 2, rows.map_values(|r: PartSuppRow| r.ps_availqty));
    int64_column(out, 3, rows.map_values(|r: PartSuppRow| r.ps_supplycost));
    text_column(out, 4, rows.map_values(|r: PartSuppRow| r.ps_comment@));
}

/// A row of the customer table is shown with every field in the column of its name: keys and
/// counts as they are, amounts with two decimals, dates as days, and texts letter by letter.
pub proof fn customer_row_is_shown(row: CustomerRow)
    ensures
        shown_row(TpchTable::Customer.columns(), row@) == seq![
            ("c_custkey"@, Shown::Number(row.c_custkey as int)),
            ("c_name"@, Shown::Text(row.c_name@)),
            ("c_address"@, Shown::Text(row.c_address@)),
            ("c_nationkey"@, Shown::Number(row.c_nationkey as int)),
            ("c_phone"@, Shown::Text(row.c_phone@)),
            ("c_acctbal"@, amount(row.c_acctbal as int)),
            ("c_mktsegment"@, Shown::Text(row.c_mktsegment@)),
            ("c_comment"@, Shown::Text(row.c_comment@)),
        ],
        TpchTable::Customer.columns().len() == 8,
{
    assert(shown_row(TpchTable::Customer.columns(), row@) =~= seq![
        ("c_custkey"@, Shown::Number(row.c_custkey as int)),
        ("c_name"@, Shown::Text(row.c_name@)),
        ("c_address"@, Shown::Text(row.c_address@)),
        ("c_nationkey"@, Shown::Number(row.c_nationkey as int)),
        ("c_phone"@, Shown::Text(row.c_phone@)),
        ("c_acctbal"@, amount(row.c_acctbal as int)),
        ("c_mktsegment"@, Shown::Text(row.c_mktsegment@)),
        ("c_comment"@, Shown::Text(row.c_comment@)),
    ]);
}

/// The columns of a chunk that holds rows of the customer table are the fields of those rows,
/// from top to bottom.
pub proof fn customer_columns_hold_the_fields(rows: Seq<CustomerRow>, out: Chunk)
    requires
        out.wf(),
        out.storages() == storages(TpchTable::Customer.columns()),
        out.rows() == rows.map_values(|row: CustomerRow| row@),
    ensures
        out.len == rows.len(),
        out.columns@.len() == 8,
        out.columns@[0] matches ColumnData::Int64(v) && v@ == rows.map_values(
            |r: CustomerRow| r.c_custkey,
        ),
        out.columns@[1] matches ColumnData::Text(v) && v@.map_values(|t: String| t@)
            == rows.map_values(|r: CustomerRow| r.c_name@),
        out.columns@[2] matches ColumnData::Text(v) && v@.map_values(|t: String| t@)
            == rows.map_values(|r: CustomerRow| r.c_address@),
        out.columns@[3] matches ColumnData::Int64(v) && v@ == rows.map_values(
            |r: CustomerRow| r.c_nationkey,
        ),
        out.columns@[4] matches ColumnData::Text(v) && v@.map_values(|t: String| t@)
            == rows.map_values(|r: CustomerRow| r.c_phone@),
        out.columns@[5] matches ColumnData::Int64(v) && v@ == rows.map_values(
            |r: CustomerRow| r.c_acctbal,
        ),
        out.columns@[6] matches ColumnData::Text(v) && v@.map_values(|t: String| t@)
            == rows.map_values(|r: CustomerRow| r.c_mktsegment@),
        out.columns@[7] matches ColumnData::Text(v) && v@.map_values(|t: String| t@)
            == rows.map_values(|r: CustomerRow| r.c_comment@),
{
    assert(out.rows().len() == rows.len());
    assert(out.columns@.len() == out.storages().len() == 8);
    assert forall|i: int| 0 <= i < rows.len() implies #[trigger] out.rows()[i] == rows[i]@ by {}
    int64_column(out, 0, rows.map_values(|r: CustomerRow| r.c_custkey));
    text_column(out, 1, rows.map_values(|r: CustomerRow| r.c_name@));
    text_column(out, 2, rows.map_values(|r: CustomerRow| r.c_address@));
    int64_column(out, 3, rows.map_values(|r: CustomerRow| r.c_nationkey));
    text_column(out, 4, rows.map_values(|r: CustomerRow| r.c_phone@));
    int64_column(out, 5, rows.map_values(|r: CustomerRow| r.c_acctbal));
    text_column(out, 6, rows.map_values(|r: CustomerRow| r.c_mktsegment@));
    text_column(out, 7, rows.map_values(|r: CustomerRow| r.c_comment@));
}

/// A row of the orders table is shown with every field in the column of its name: keys and
/// counts as they are, amounts with two decimals, dates as days, and texts letter by letter.
pub proof fn orders_row_is_shown(row: OrderRow)
    ensures
        shown_row(TpchTable::Orders.columns(), row@) == seq![
            ("o_orderkey"@, Shown::Number(row.o_orderkey as int)),
            ("o_custkey"@, Shown::Number(row.o_custkey as int)),
            ("o_orderstatus"@, Shown::Text(row.o_orderstatus@)),
            ("o_totalprice"@, amount(row.o_totalprice as int)),
            ("o_orderdate"@, Shown::Day(row.o_orderdate as int)),
            ("o_orderpriority"@, Shown::Text(row.o_orderpriority@)),
            ("o_clerk"@, Shown::Text(row.o_clerk@)),
            ("o_shippriority"@, Shown::Number(row.o_shippriority as int)),
            ("o_comment"@, Shown::Text(row.o_comment@)),
        ],
        TpchTable::Orders.columns().len() == 9,
{
    assert(shown_row(TpchTable::Orders.columns(), row@) =~= seq![
        ("o_orderkey"@, Shown::Number(row.o_orderkey as int)),
        ("o_custkey"@, Shown::Number(row.o_custkey as int)),
        ("o_orderstatus"@, Shown::Text(row.o_orderstatus@)),
        ("o_totalprice"@, amount(row.o_totalprice as int)),
        ("o_orderdate"@, Shown::Day(row.o_orderdate as int)),
        ("o_orderpriority"@, Shown::Text(row.o_orderpriority@)),
        ("o_clerk"@, Shown::Text(row.o_clerk@)),
        ("o_shippriority"@, Shown::Number(row.o_shippriority as int)),
        ("o_comment"@, Shown::Text(row.o_comment@)),
    ]);
}

/// The columns of a chunk that holds rows of the orders table are the fields of those rows,
/// from top to bottom.
pub proof fn orders_columns_hold_the_fields(rows: Seq<OrderRow>, out: Chunk)
    requires
        out.wf(),
        out.storages() == storages(TpchTable::Orders.columns()),
        out.rows() == rows.map_values(|row: OrderRow| row@),
    ensures
        out.len == rows.len(),
        out.columns@.len() == 9,
        out.columns@[0] matches ColumnData::Int64(v) && v@ == rows.map_values(
            |r: OrderRow| r.o_orderkey,
        ),
        out.columns@[1] matches ColumnData::Int64(v) && v@ == rows.map_values(
            |r: OrderRow| r.o_custkey,
        ),
        out.columns@[2] matches ColumnData::Text(v) && v@.map_values(|t: String| t@)
            == rows.map_values(|r: OrderRow| r.o_orderstatus@),
        out.columns@[3] matches ColumnData::Int64(v) && v@ == rows.map_values(
            |r: OrderRow| r.o_totalprice,
        ),
        out.columns@[4] matches ColumnData::Int32(v) && v@ == rows.map_values(
            |r: OrderRow| r.o_orderdate,
        ),
        out.columns@[5] matches ColumnData::Text(v) && v@.map_values(|t: String| t@)
            == rows.map_values(|r: OrderRow| r.o_orderpriority@),
        out.columns@[6] matches ColumnData::Text(v) && v@.map_values(|t: String| t@)
            == rows.map_values(|r: OrderRow| r.o_clerk@),
        out.columns@[7] matches ColumnData::Int32(v) && v@ == rows.map_values(
            |r: OrderRow| r.o_shippriority,
        ),
        out.columns@[8] matches ColumnData::Text(v) && v@.map_values(|t: String| t@)
            == rows.map_values(|r: OrderRow| r.o_comment@),
{
    assert(out.rows().len() == rows.len());
    assert(out.columns@.len() == out.storages().len() == 9);
    assert forall|i: int| 0 <= i < rows.len() implies #[trigger] out.rows()[i] == rows[i]@ by {}
    int64_column(out, 0, rows.map_values(|r: OrderRow| r.o_orderkey));
    int64_column(out, 1, rows.map_values(|r: OrderRow| r.o_custkey));
    text_column(out, 2, rows.map_values(|r: OrderRow| r.o_orderstatus@));
    int64_column(out, 3, rows.map_values(|r: OrderRow| r.o_totalprice));
    int32_column(out, 4, rows.map_values(|r: OrderRow| r.o_orderdate));
    text_column(out, 5, rows.map_values(|r: OrderRow| r.o_orderpriority@));
    text_column(out, 6, rows.map_values(|r: OrderRow| r.o_clerk@));
    int32_column(out, 7, rows.map_values(|r: OrderRow| r.o_shippriority));
    text_column(out, 8, rows.map_values(|r: OrderRow| r.o_comment@));
}

/// A row of the lineitem table is shown with every field in the column of its name: keys and
/// counts as they are, amounts with two decimals, dates as days, and texts letter by letter. The
/// quantity, a whole number, is shown as that number with two decimals.
pub proof fn lineitem_row_is_shown(row: LineItemRow)
    requires
        row.quantity_fits(),
    ensures
        shown_row(TpchTable::Lineitem.columns(), stored_lineitem(row@)) == seq![
            ("l_orderkey"@, Shown::Number(row.l_orderkey as int)),
            ("l_partkey"@, Shown::Number(row.l_partkey as int)),
            ("l_suppkey"@, Shown::Number(row.l_suppkey as int)),
            ("l_linenumber"@, Shown::Number(row.l_linenumber as int)),
            ("l_quantity"@, amount(row.l_quantity * 100)),
            ("l_extendedprice"@, amount(row.l_extendedprice as int)),
            ("l_discount"@, amount(row.l_discount as int)),
            ("l_tax"@, amount(row.l_tax as int)),
            ("l_returnflag"@, Shown::Text(row.l_returnflag@)),
            ("l_linestatus"@, Shown::Text(row.l_linestatus@)),
            ("l_shipdate"@, Shown::Day(row.l_shipdate as int)),
            ("l_commitdate"@, Shown::Day(row.l_commitdate as int)),
            ("l_receiptdate"@, Shown::Day(row.l_receiptdate as int)),
            ("l_shipinstruct"@, Shown::Text(row.l_shipinstruct@)),
            ("l_shipmode"@, Shown::Text(row.l_shipmode@)),
            ("l_comment"@, Shown::Text(row.l_comment@)),
        ],
        TpchTable::Lineitem.columns().len() == 16,
{
    assert(shown_row(TpchTable::Lineitem.columns(), stored_lineitem(row@)) =~= seq![
        ("l_orderkey"@, Shown::Number(row.l_orderkey as int)),
        ("l_partkey"@, Shown::Number(row.l_partkey as int)),
        ("l_suppkey"@, Shown::Number(row.l_suppkey as int)),
        ("l_linenumber"@, Shown::Number(row.l_linenumber as int)),
        ("l_quantity"@, amount(row.l_quantity * 100)),
        ("l_extendedprice"@, amount(row.l_extendedprice as int)),
        ("l_discount"@, amount(row.l_discount as int)),
        ("l_tax"@, amount(row.l_tax as int)),
        ("l_returnflag"@, Shown::Text(row.l_returnflag@)),
        ("l_linestatus"@, Shown::Text(row.l_linestatus@)),
        ("l_shipdate"@, Shown::Day(row.l_shipdate as int)),
        ("l_commitdate"@, Shown::Day(row.l_commitdate as int)),
        ("l_receiptdate"@, Shown::Day(row.l_receiptdate as int)),
        ("l_shipinstruct"@, Shown::Text(row.l_shipinstruct@)),
        ("l_shipmode"@, Shown::Text(row.l_shipmode@)),
        ("l_comment"@, Shown::Text(row.l_comment@)),
    ]);
}

/// The columns of a chunk that holds rows of the lineitem table are the fields of those rows,
/// from top to bottom, and of the quantity a hundred times it.
pub proof fn lineitem_columns_hold_the_fields(rows: Seq<LineItemRow>, out: Chunk)
    requires
        out.wf(),
        out.storages() == storages(TpchTable::Lineitem.columns()),
        out.rows() == rows.map_values(|row: LineItemRow| stored_lineitem(row@)),
        forall|i: int| 0 <= i < rows.len() ==> (#[trigger] rows[i]).quantity_fits(),
    ensures
        out.len == rows.len(),
        out.columns@.len() == 16,
        out.columns@[0] matches ColumnData::Int64(v) && v@ == rows.map_values(
            |r: LineItemRow| r.l_orderkey,
        ),
        out.columns@[1] matches ColumnData::Int64(v) && v@ == rows.map_values(
            |r: LineItemRow| r.l_partkey,
        ),
        out.columns@[2] matches ColumnData::Int64(v) && v@ == rows.map_values(
            |r: LineItemRow| r.l_suppkey,
        ),
        out.columns@[3] matches ColumnData::Int32(v) && v@ == rows.map_values(
            |r: LineItemRow| r.l_linenumber,
        ),
        out.columns@[4] matches ColumnData::Int64(v) && v@.len() == rows.len() && forall|i: int|
            0 <= i < rows.len() ==> #[trigger] v@[i] == rows[i].l_quantity * 100,
        out.columns@[5] matches ColumnData::Int64(v) && v@ == rows.map_values(
            |r: LineItemRow| r.l_extendedprice,
        ),
        out.columns@[6] matches ColumnData::Int64(v) && v@ == rows.map_values(
            |r: LineItemRow| r.l_discount,
        ),
        out.columns@[7] matches ColumnData::Int64(v) && v@ == rows.map_values(
            |r: LineItemRow| r.l_tax,
        ),
        out.columns@[8] matches ColumnData::Text(v) && v@.map_values(|t: String| t@)
            == rows.map_values(|r: LineItemRow| r.l_returnflag@),
        out.columns@[9] matches ColumnData::Text(v) && v@.map_values(|t: String| t@)
            == rows.map_values(|r: LineItemRow| r.l_linestatus@),
        out.columns@[10] matches ColumnData::Int32(v) && v@ == rows.map_values(
            |r: LineItemRow| r.l_shipdate,
        ),
        out.columns@[11] matches ColumnData::Int32(v) && v@ == rows.map_values(
            |r: LineItemRow| r.l_commitdate,
        ),
        out.columns@[12] matches ColumnData::Int32(v) && v@ == rows.map_values(
            |r: LineItemRow| r.l_receiptdate,
        ),
        out.columns@[13] matches ColumnData::Text(v) && v@.map_values(|t: String| t@)
            == rows.map_values(|r: LineItemRow| r.l_shipinstruct@),
        out.columns@[14] matches ColumnData::Text(v) && v@.map_values(|t: String| t@)
            == rows.map_values(|r: LineItemRow| r.l_shipmode@),
        out.columns@[15] matches ColumnData::Text(v) && v@.map_values(|t: String| t@)
            == rows.map_values(|r: LineItemRow| r.l_comment@),
{
    assert(out.rows().len() == rows.len());
    assert(out.columns@.len() == out.storages().len() == 16);
    assert forall|i: int| 0 <= i < rows.len() implies #[trigger] out.rows()[i]
        == stored_lineitem(rows[i]@) by {}
    int64_column(out, 0, rows.map_values(|r: LineItemRow| r.l_orderkey));
    int64_column(out, 1, rows.map_values(|r: LineItemRow| r.l_partkey));
    int64_column(out, 2, rows.map_values(|r: LineItemRow| r.l_suppkey));
    int32_column(out, 3, rows.map_values(|r: LineItemRow| r.l_linenumber));
    int64_column(out, 4, rows.map_values(|r: LineItemRow| (r.l_quantity * 100) as i64));
    int64_column(out, 5, rows.map_values(|r: LineItemRow| r.l_extendedprice));
    int64_column(out, 6, rows.map_values(|r: LineItemRow| r.l_discount));
    int64_column(out, 7, rows.map_values(|r: LineItemRow| r.l_tax));
    text_column(out, 8, rows.map_values(|r: LineItemRow| r.l_returnflag@));
    text_column(out, 9, rows.map_values(|r: LineItemRow| r.l_linestatus@));
    int32_column(out, 10, rows.map_values(|r: LineItemRow| r.l_shipdate));
    int32_column(out, 11, rows.map_values(|r: LineItemRow| r.l_commitdate));
    int32_column(out, 12, rows.map_values(|r: LineItemRow| r.l_receiptdate));
    text_column(out, 13, rows.map_values(|r: LineItemRow| r.l_shipinstruct@));
    text_column(out, 14, rows.map_values(|r: LineItemRow| r.l_shipmode@));
    text_column(out, 15, rows.map_values(|r: LineItemRow| r.l_comment@));
}

/// A row that conforms to some columns can be read in all of them.
pub proof fn conforming_rows_can_be_read(row: Seq<Value>, columns: Seq<(Seq<char>, ColumnType)>)
    requires
        row_conforms(row, columns),
    ensures
        shown_row(columns, row).len() == columns.len(),
        forall|c: int|
            0 <= c < columns.len() ==> (#[trigger] shown_row(columns, row)[c]).0 == columns[c].0
                && shown_row(columns, row)[c].1 !is Garbage,
{
    assert forall|c: int| 0 <= c < columns.len() implies (#[trigger] shown_row(columns, row)[c]).0
        == columns[c].0 && shown_row(columns, row)[c].1 !is Garbage by {
        assert(row[c].storage() == storage_of(columns[c].1));
    }
}

} // verus!
