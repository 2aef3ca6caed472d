//! Column names and types of the tables, in physical column order.

use crate::table::TpchTable;
use vstd::prelude::*;

verus! {

/// The type of a result column as DuckDB names it.
#[derive(Debug, Clone, Copy, PartialEq, Eq, Structural)]
pub enum ColumnType {
    Bigint,
    Integer,
    Varchar,
    Date,
    Decimal { width: u8, scale: u8 },
}

/// How the values of a column are stored.
#[derive(Debug, Clone, Copy, PartialEq, Eq, Structural)]
pub enum Storage {
    Int64,
    Int32,
    Text,
}

pub open spec fn decimal_type() -> ColumnType {
    ColumnType::Decimal { width: 15, scale: 2 }
}

/// `BIGINT` and decimals of at most 18 digits are 64-bit integers, the latter scaled; `INTEGER`
/// and `DATE` (days since the Unix epoch) are 32-bit integers.
pub open spec fn storage_of(column: ColumnType) -> Storage {
    match column {
        ColumnType::Bigint => Storage::Int64,
        ColumnType::Integer => Storage::Int32,
        ColumnType::Varchar => Storage::Text,
        ColumnType::Date => Storage::Int32,
        ColumnType::Decimal { .. } => Storage::Int64,
    }
}

pub fn bigint() -> (column: ColumnType)
    ensures
        column == ColumnType::Bigint,
{
    ColumnType::Bigint
}

pub fn integer() -> (column: ColumnType)
    ensures
        column == ColumnType::Integer,
{
    ColumnType::Integer
}

pub fn varchar() -> (column: ColumnType)
    ensures
        column == ColumnType::Varchar,
{
    ColumnType::Varchar
}

pub fn date() -> (column: ColumnType)
    ensures
        column == ColumnType::Date,
{
    ColumnType::Date
}

/// All TPC-H decimals are `DECIMAL(15, 2)`. With a precision of 15 (at most 18) DuckDB stores
/// the value as a 64-bit integer.
pub fn decimal() -> (column: ColumnType)
    ensures
        column == decimal_type(),
{
    ColumnType::Decimal { width: 15, scale: 2 }
}

impl ColumnType {
    /// How a column of this type is stored.
    pub fn storage(self) -> (storage: Storage)
        ensures
            storage == storage_of(self),
    {
        match self {
            ColumnType::Bigint => Storage::Int64,
            ColumnType::Integer => Storage::Int32,
            ColumnType::Varchar => Storage::Text,
            ColumnType::Date => Storage::Int32,
            ColumnType::Decimal { .. } => Storage::Int64,
        }
    }
}

/// A list of columns with the names taken as character sequences.
pub open spec fn columns_view(columns: Seq<(&'static str, ColumnType)>) -> Seq<
    (Seq<char>, ColumnType),
> {
    columns.map_values(|column: (&'static str, ColumnType)| (column.0@, column.1))
}

/// How the columns of a list are stored.
pub open spec fn storages(columns: Seq<(Seq<char>, ColumnType)>) -> Seq<Storage> {
    columns.map_values(|column: (Seq<char>, ColumnType)| storage_of(column.1))
}

pub open spec fn nation_columns() -> Seq<(Seq<char>, ColumnType)> {
    seq![
        ("n_nationkey"@, ColumnType::Bigint),
        ("n_name"@, ColumnType::Varchar),
        ("n_regionkey"@, ColumnType::Bigint),
        ("n_comment"@, ColumnType::Varchar),
    ]
}

pub open spec fn region_columns() -> Seq<(Seq<char>, ColumnType)> {
    seq![
        ("r_regionkey"@, ColumnType::Bigint),
        ("r_name"@, ColumnType::Varchar),
        ("r_comment"@, ColumnType::Varchar),
    ]
}

pub open spec fn part_columns() -> Seq<(Seq<char>, ColumnType)> {
    seq![
        ("p_partkey"@, ColumnType::Bigint),
        ("p_name"@, ColumnType::Varchar),
        ("p_mfgr"@, ColumnType::Varchar),
        ("p_brand"@, ColumnType::Varchar),
        ("p_type"@, ColumnType::Varchar),
        ("p_size"@, ColumnType::Integer),
        ("p_container"@, ColumnType::Varchar),
        ("p_retailprice"@, decimal_type()),
        ("p_comment"@, ColumnType::Varchar),
    ]
}

pub open spec fn supplier_columns() -> Seq<(Seq<char>, ColumnType)> {
    seq![
        ("s_suppkey"@, ColumnType::Bigint),
        ("s_name"@, ColumnType::Varchar),
        ("s_address"@, ColumnType::Varchar),
        ("s_nationkey"@, ColumnType::Bigint),
        ("s_phone"@, ColumnType::Varchar),
        ("s_acctbal"@, decimal_type()),
        ("s_comment"@, ColumnType::Varchar),
    ]
}

pub open spec fn partsupp_columns() -> Seq<(Seq<char>, ColumnType)> {
    seq![
        ("ps_partkey"@, ColumnType::Bigint),
        ("ps_suppkey"@, ColumnType::Bigint),
        ("ps_availqty"@, ColumnType::Integer),
        ("ps_supplycost"@, decimal_type()),
        ("ps_comment"@, ColumnType::Varchar),
    ]
}

pub open spec fn customer_columns() -> Seq<(Seq<char>, ColumnType)> {
    seq![
        ("c_custkey"@, ColumnType::Bigint),
        ("c_name"@, ColumnType::Varchar),
        ("c_address"@, ColumnType::Varchar),
        ("c_nationkey"@, ColumnType::Bigint),
        ("c_phone"@, ColumnType::Varchar),
        ("c_acctbal"@, decimal_type()),
        ("c_mktsegment"@, ColumnType::Varchar),
        ("c_comment"@, ColumnType::Varchar),
    ]
}

pub open spec fn orders_columns() -> Seq<(Seq<char>, ColumnType)> {
    seq![
        ("o_orderkey"@, ColumnType::Bigint),
        ("o_custkey"@, ColumnType::Bigint),
        ("o_orderstatus"@, ColumnType::Varchar),
        ("o_totalprice"@, decimal_type()),
        ("o_orderdate"@, ColumnType::Date),
        ("o_orderpriority"@, ColumnType::Varchar),
        ("o_clerk"@, ColumnType::Varchar),
        ("o_shippriority"@, ColumnType::Integer),
        ("o_comment"@, ColumnType::Varchar),
    ]
}

pub open spec fn lineitem_columns() -> Seq<(Seq<char>, ColumnType)> {
    seq![
        ("l_orderkey"@, ColumnType::Bigint),
        ("l_partkey"@, ColumnType::Bigint),
        ("l_suppkey"@, ColumnType::Bigint),
        ("l_linenumber"@, ColumnType::Integer),
        ("l_quantity"@, decimal_type()),
        ("l_extendedprice"@, decimal_type()),
        ("l_discount"@, decimal_type()),
        ("l_tax"@, decimal_type()),
        ("l_returnflag"@, ColumnType::Varchar),
        ("l_linestatus"@, ColumnType::Varchar),
        ("l_shipdate"@, ColumnType::Date),
        ("l_commitdate"@, ColumnType::Date),
        ("l_receiptdate"@, ColumnType::Date),
        ("l_shipinstruct"@, ColumnType::Varchar),
        ("l_shipmode"@, ColumnType::Varchar),
        ("l_comment"@, ColumnType::Varchar),
    ]
}

impl TpchTable {
    /// The columns of the table, in physical order.
    pub open spec fn columns(self) -> Seq<(Seq<char>, ColumnType)> {
        match self {
            Self::Nation => nation_columns(),
            Self::Region => region_columns(),
            Self::Part => part_columns(),
            Self::Supplier => supplier_columns(),
            Self::Partsupp => partsupp_columns(),
            Self::Customer => customer_columns(),
            Self::Orders => orders_columns(),
            Self::Lineitem => lineitem_columns(),
        }
    }

    /// Column names and types, in physical column order. The rows of the table are written in
    /// this order.
    pub fn schema(self) -> (columns: Vec<(&'static str, ColumnType)>)
        ensures
            columns_view(columns@) == self.columns(),
    {
        let columns: Vec<(&'static str, ColumnType)> = match self {
            Self::Nation => vec![
                ("n_nationkey", bigint()),
                ("n_name", varchar()),
                ("n_regionkey", bigint()),
                ("n_comment", varchar()),
            ],
            Self::Region => vec![
                ("r_regionkey", bigint()),
                ("r_name", varchar()),
                ("r_comment", varchar()),
            ],
            Self::Part => vec![
                ("p_partkey", bigint()),
                ("p_name", varchar()),
                ("p_mfgr", varchar()),
                ("p_brand", varchar()),
                ("p_type", varchar()),
                ("p_size", integer()),
                ("p_container", varchar()),
                ("p_retailprice", decimal()),
                ("p_comment", varchar()),
            ],
            Self::Supplier => vec![
                ("s_suppkey", bigint()),
                ("s_name", varchar()),
                ("s_address", varchar()),
                ("s_nationkey", bigint()),
                ("s_phone", varchar()),
                ("s_acctbal", decimal()),
                ("s_comment", varchar()),
            ],
            Self::Partsupp => vec![
                ("ps_partkey", bigint()),
                ("ps_suppkey", bigint()),
                ("ps_availqty", integer()),
                ("ps_supplycost", decimal()),
                ("ps_comment", varchar()),
            ],
            Self::Customer => vec![
                ("c_custkey", bigint()),
                ("c_name", varchar()),
                ("c_address", varchar()),
                ("c_nationkey", bigint()),
                ("c_phone", varchar()),
                ("c_acctbal", decimal()),
                ("c_mktsegment", varchar()),
                ("c_comment", varchar()),
            ],
            Self::Orders => vec![
                ("o_orderkey", bigint()),
                ("o_custkey", bigint()),
                ("o_orderstatus", varchar()),
                ("o_totalprice", decimal()),
                ("o_orderdate", date()),
                ("o_orderpriority", varchar()),
                ("o_clerk", varchar()),
                ("o_shippriority", integer()),
                ("o_comment", varchar()),
            ],
            Self::Lineitem => vec![
                ("l_orderkey", bigint()),
                ("l_partkey", bigint()),
                ("l_suppkey", bigint()),
                ("l_linenumber", integer()),
                ("l_quantity", decimal()),
                ("l_extendedprice", decimal()),
                ("l_discount", decimal()),
                ("l_tax", decimal()),
                ("l_returnflag", varchar()),
                ("l_linestatus", varchar()),
                ("l_shipdate", date()),
                ("l_commitdate", date()),
                ("l_receiptdate", date()),
                ("l_shipinstruct", varchar()),
                ("l_shipmode", varchar()),
                ("l_comment", varchar()),
            ],
        };
        assert(columns_view(columns@) =~= self.columns());
        columns
    }
}

/// Taking the names as character sequences keeps every column, its name and its type.
pub proof fn columns_keep_name_and_type(columns: Seq<(&'static str, ColumnType)>, c: int)
    requires
        0 <= c < columns.len(),
    ensures
        columns_view(columns).len() == columns.len(),
        columns_view(columns)[c].0 == columns[c].0@,
        columns_view(columns)[c].1 == columns[c].1,
{
}

} // verus!
