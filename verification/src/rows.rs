//! The rows of the tables and how a batch of them fills a chunk.
//!
//! Decimals are held as 64-bit integers scaled by 100 and dates as days since the Unix epoch,
//! except for `l_quantity`, which is a whole number until it is written.

use crate::chunk::{column_of, filled_columns, Chunk, ColumnData, Value, BATCH_SIZE};
use crate::schema::storages;
use crate::shown::{
    customer_columns_hold_the_fields, lineitem_columns_hold_the_fields,
    nation_columns_hold_the_fields, orders_columns_hold_the_fields, part_columns_hold_the_fields,
    partsupp_columns_hold_the_fields, region_columns_hold_the_fields,
    supplier_columns_hold_the_fields,
};
use crate::table::TpchTable;
use vstd::prelude::*;

verus! {

/// A row of the nation table.
#[derive(Debug, PartialEq, Eq)]
pub struct NationRow {
    pub n_nationkey: i64,
    pub n_name: &'static str,
    pub n_regionkey: i64,
    pub n_comment: &'static str,
}

impl View for NationRow {
    type V = Seq<Value>;

    /// The fields, in column order.
    open spec fn view(&self) -> Seq<Value> {
        seq![
            Value::Int64(self.n_nationkey),
            Value::Text(self.n_name@),
            Value::Int64(self.n_regionkey),
            Value::Text(self.n_comment@),
        ]
    }
}

/// Writes a batch of nation rows into a chunk, one row below the other.
pub fn write_nation(rows: &Vec<NationRow>) -> (out: Chunk)
    requires
        rows@.len() <= BATCH_SIZE,
    ensures
        out.wf(),
        out.storages() == storages(TpchTable::Nation.columns()),
        out.rows() == rows@.map_values(|row: NationRow| row@),
        out.columns@.len() == 4,
        out.columns@[0] matches ColumnData::Int64(v) && v@ == rows@.map_values(
            |r: NationRow| r.n_nationkey,
        ),
        out.columns@[1] matches ColumnData::Text(v) && v@.map_values(|t: String| t@)
            == rows@.map_values(|r: NationRow| r.n_name@),
        out.columns@[2] matches ColumnData::Int64(v) && v@ == rows@.map_values(
            |r: NationRow| r.n_regionkey,
        ),
        out.columns@[3] matches ColumnData::Text(v) && v@.map_values(|t: String| t@)
            == rows@.map_values(|r: NationRow| r.n_comment@),
{
    let ghost stored = rows@.map_values(|row: NationRow| row@);
    let mut out = Chunk::with_columns(&TpchTable::Nation.schema());
    assert(out.columns@.len() == out.storages().len() == 4);
    out.put_i64(0, rows, |r: &NationRow| -> (v: i64) ensures v == r.n_nationkey { r.n_nationkey });
    assert(out.columns@[0].values() =~= column_of(stored, 0));
    out.put_str(1, rows, |r: &NationRow| -> (v: &'static str) ensures v@ == r.n_name@ { r.n_name });
    assert(out.columns@[1].values() =~= column_of(stored, 1));
    out.put_i64(2, rows, |r: &NationRow| -> (v: i64) ensures v == r.n_regionkey { r.n_regionkey });
    assert(out.columns@[2].values() =~= column_of(stored, 2));
    out.put_str(
        3,
        rows,
        |r: &NationRow| -> (v: &'static str) ensures v@ == r.n_comment@ { r.n_comment },
    );
    assert(out.columns@[3].values() =~= column_of(stored, 3));
    out.set_len(rows.len());
    proof {
        assert(out.storages().len() == 4);
        filled_columns(out, stored);
        nation_columns_hold_the_fields(rows@, out);
    }
    out
}

/// A row of the region table.
#[derive(Debug, PartialEq, Eq)]
pub struct RegionRow {
    pub r_regionkey: i64,
    pub r_name: &'static str,
    pub r_comment: &'static str,
}

impl View for RegionRow {
    type V = Seq<Value>;

    /// The fields, in column order.
    open spec fn view(&self) -> Seq<Value> {
        seq![
            Value::Int64(self.r_regionkey),
            Value::Text(self.r_name@),
            Value::Text(self.r_comment@),
        ]
    }
}

/// Writes a batch of region rows into a chunk, one row below the other.
pub fn write_region(rows: &Vec<RegionRow>) -> (out: Chunk)
    requires
        rows@.len() <= BATCH_SIZE,
    ensures
        out.wf(),
        out.storages() == storages(TpchTable::Region.columns()),
        out.rows() == rows@.map_values(|row: RegionRow| row@),
        out.columns@.len() == 3,
        out.columns@[0] matches ColumnData::Int64(v) && v@ == rows@.map_values(
            |r: RegionRow| r.r_regionkey,
        ),
        out.columns@[1] matches ColumnData::Text(v) && v@.map_values(|t: String| t@)
            == rows@.map_values(|r: RegionRow| r.r_name@),
        out.columns@[2] matches ColumnData::Text(v) && v@.map_values(|t: String| t@)
            == rows@.map_values(|r: RegionRow| r.r_comment@),
{
    let ghost stored = rows@.map_values(|row: RegionRow| row@);
    let mut out = Chunk::with_columns(&TpchTable::Region.schema());
    assert(out.columns@.len() == out.storages().len() == 3);
    out.put_i64(0, rows, |r: &RegionRow| -> (v: i64) ensures v == r.r_regionkey { r.r_regionkey });
    assert(out.columns@[0].values() =~= column_of(stored, 0));
    out.put_str(1, rows, |r: &RegionRow| -> (v: &'static str) ensures v@ == r.r_name@ { r.r_name });
    assert(out.columns@[1].values() =~= column_of(stored, 1));
    out.put_str(
        2,
        rows,
        |r: &RegionRow| -> (v: &'static str) ensures v@ == r.r_comment@ { r.r_comment },
    );
    assert(out.columns@[2].values() =~= column_of(stored, 2));
    out.set_len(rows.len());
    proof {
        assert(out.storages().len() == 3);
        filled_columns(out, stored);
        region_columns_hold_the_fields(rows@, out);
    }
    out
}

/// A row of the part table.
#[derive(Debug, PartialEq, Eq)]
pub struct PartRow {
    pub p_partkey: i64,
    pub p_name: String,
    pub p_mfgr: String,
    pub p_brand: String,
    pub p_type: &'static str,
    pub p_size: i32,
    pub p_container: &'static str,
    pub p_retailprice: i64,
    pub p_comment: &'static str,
}

impl View for PartRow {
    type V = Seq<Value>;

    /// The fields, in column order.
    open spec fn view(&self) -> Seq<Value> {
        seq![
            Value::Int64(self.p_partkey),
            Value::Text(self.p_name@),
            Value::Text(self.p_mfgr@),
            Value::Text(self.p_brand@),
            Value::Text(self.p_type@),
            Value::Int32(self.p_size),
            Value::Text(self.p_container@),
            Value::Int64(self.p_retailprice),
            Value::Text(self.p_comment@),
        ]
    }
}

/// Writes a batch of part rows into a chunk, one row below the other.
pub fn write_part(rows: &Vec<PartRow>) -> (out: Chunk)
    requires
        rows@.len() <= BATCH_SIZE,
    ensures
        out.wf(),
        out.storages() == storages(TpchTable::Part.columns()),
        out.rows() == rows@.map_values(|row: PartRow| row@),
        out.columns@.len() == 9,
        out.columns@[0] matches ColumnData::Int64(v) && v@ == rows@.map_values(
            |r: PartRow| r.p_partkey,
        ),
        out.columns@[1] matches ColumnData::Text(v) && v@.map_values(|t: String| t@)
            == rows@.map_values(|r: PartRow| r.p_name@),
        out.columns@[2] matches ColumnData::Text(v) && v@.map_values(|t: String| t@)
            == rows@.map_values(|r: PartRow| r.p_mfgr@),
        out.columns@[3] matches ColumnData::Text(v) && v@.map_values(|t: String| t@)
            == rows@.map_values(|r: PartRow| r.p_brand@),
        out.columns@[4] matches ColumnData::Text(v) && v@.map_values(|t: String| t@)
            == rows@.map_values(|r: PartRow| r.p_type@),
        out.columns@[5] matches ColumnData::Int32(v) && v@ == rows@.map_values(
            |r: PartRow| r.p_size,
        ),
        out.columns@[6] matches ColumnData::Text(v) && v@.map_values(|t: String| t@)
            == rows@.map_values(|r: PartRow| r.p_container@),
        out.columns@[7] matches ColumnData::Int64(v) && v@ == rows@.map_values(
            |r: PartRow| r.p_retailprice,
        ),
        out.columns@[8] matches ColumnData::Text(v) && v@.map_values(|t: String| t@)
            == rows@.map_values(|r: PartRow| r.p_comment@),
{
    let ghost stored = rows@.map_values(|row: PartRow| row@);
    let mut out = Chunk::with_columns(&TpchTable::Part.schema());
    assert(out.columns@.len() == out.storages().len() == 9);
    out.put_i64(0, rows, |r: &PartRow| -> (v: i64) ensures v == r.p_partkey { r.p_partkey });
    assert(out.columns@[0].values() =~= column_of(stored, 0));
    out.put_display(
        1,
        rows,
        |r: &PartRow| -> (v: String) ensures v@ == r.p_name@ { r.p_name.clone() },
    );
    assert(out.columns@[1].values() =~= column_of(stored, 1));
    out.put_display(
        2,
        rows,
        |r: &PartRow| -> (v: String) ensures v@ == r.p_mfgr@ { r.p_mfgr.clone() },
    );
    assert(out.columns@[2].values() =~= column_of(stored, 2));
    out.put_display(
        3,
        rows,
        |r: &PartRow| -> (v: String) ensures v@ == r.p_brand@ { r.p_brand.clone() },
    );
    assert(out.columns@[3].values() =~= column_of(stored, 3));
    out.put_str(4, rows, |r: &PartRow| -> (v: &'static str) ensures v@ == r.p_type@ { r.p_type });
    assert(out.columns@[4].values() =~= column_of(stored, 4));
    out.put_i32(5, rows, |r: &PartRow| -> (v: i32) ensures v == r.p_size { r.p_size });
    assert(out.columns@[5].values() =~= column_of(stored, 5));
    out.put_str(
        6,
        rows,
        |r: &PartRow| -> (v: &'static str) ensures v@ == r.p_container@ { r.p_container },
    );
    assert(out.columns@[6].values() =~= column_of(stored, 6));
    out.put_i64(
        7,
        rows,
        |r: &PartRow| -> (v: i64) ensures v == r.p_retailprice { r.p_retailprice },
    );
    assert(out.columns@[7].values() =~= column_of(stored, 7));
    out.put_str(
        8,
        rows,
        |r: &PartRow| -> (v: &'static str) ensures v@ == r.p_comment@ { r.p_comment },
    );
    assert(out.columns@[8].values() =~= column_of(stored, 8));
    out.set_len(rows.len());
    proof {
        assert(out.storages().len() == 9);
        filled_columns(out, stored);
        part_columns_hold_the_fields(rows@, out);
    }
    out
}

/// A row of the supplier table.
#[derive(Debug, PartialEq, Eq)]
pub struct SupplierRow {
    pub s_suppkey: i64,
    pub s_name: String,
    pub s_address: String,
    pub s_nationkey: i64,
    pub s_phone: String,
    pub s_acctbal: i64,
    pub s_comment: String,
}

impl View for SupplierRow {
    type V = Seq<Value>;

    /// The fields, in column order.
    open spec fn view(&self) -> Seq<Value> {
        seq![
            Value::Int64(self.s_suppkey),
            Value::Text(self.s_name@),
            Value::Text(self.s_address@),
            Value::Int64(self.s_nationkey),
            Value::Text(self.s_phone@),
            Value::Int64(self.s_acctbal),
            Value::Text(self.s_comment@),
        ]
    }
}

/// Writes a batch of supplier rows into a chunk, one row below the other.
pub fn write_supplier(rows: &Vec<SupplierRow>) -> (out: Chunk)
    requires
        rows@.len() <= BATCH_SIZE,
    ensures
        out.wf(),
        out.storages() == storages(TpchTable::Supplier.columns()),
        out.rows() == rows@.map_values(|row: SupplierRow| row@),
        out.columns@.len() == 7,
        out.columns@[0] matches ColumnData::Int64(v) && v@ == rows@.map_values(
            |r: SupplierRow| r.s_suppkey,
        ),
        out.columns@[1] matches ColumnData::Text(v) && v@.map_values(|t: String| t@)
            == rows@.map_values(|r: SupplierRow| r.s_name@),
        out.columns@[2] matches ColumnData::Text(v) && v@.map_values(|t: String| t@)
            == rows@.map_values(|r: SupplierRow| r.s_address@),
        out.columns@[3] matches ColumnData::Int64(v) && v@ == rows@.map_values(
            |r: SupplierRow| r.s_nationkey,
        ),
        out.columns@[4] matches ColumnData::Text(v) && v@.map_values(|t: String| t@)
            == rows@.map_values(|r: SupplierRow| r.s_phone@),
        out.columns@[5] matches ColumnData::Int64(v) && v@ == rows@.map_values(
            |r: SupplierRow| r.s_acctbal,
        ),
        out.columns@[6] matches ColumnData::Text(v) && v@.map_values(|t: String| t@)
            == rows@.map_values(|r: SupplierRow| r.s_comment@),
{
    let ghost stored = rows@.map_values(|row: SupplierRow| row@);
    let mut out = Chunk::with_columns(&TpchTable::Supplier.schema());
    assert(out.columns@.len() == out.storages().len() == 7);
    out.put_i64(0, rows, |r: &SupplierRow| -> (v: i64) ensures v == r.s_suppkey { r.s_suppkey });
    assert(out.columns@[0].values() =~= column_of(stored, 0));
    out.put_display(
        1,
        rows,
        |r: &SupplierRow| -> (v: String) ensures v@ == r.s_name@ { r.s_name.clone() },
    );
    assert(out.columns@[1].values() =~= column_of(stored, 1));
    out.put_display(
        2,
        rows,
        |r: &SupplierRow| -> (v: String) ensures v@ == r.s_address@ { r.s_address.clone() },
    );
    assert(out.columns@[2].values() =~= column_of(stored, 2));
    out.put_i64(
        3,
        rows,
        |r: &SupplierRow| -> (v: i64) ensures v == r.s_nationkey { r.s_nationkey },
    );
    assert(out.columns@[3].values() =~= column_of(stored, 3));
    out.put_display(
        4,
        rows,
        |r: &SupplierRow| -> (v: String) ensures v@ == r.s_phone@ { r.s_phone.clone() },
    );
    assert(out.columns@[4].values() =~= column_of(stored, 4));
    out.put_i64(5, rows, |r: &SupplierRow| -> (v: i64) ensures v == r.s_acctbal { r.s_acctbal });
    assert(out.columns@[5].values() =~= column_of(stored, 5));
    out.put_display(
        6,
        rows,
        |r: &SupplierRow| -> (v: String) ensures v@ == r.s_comment@ { r.s_comment.clone() },
    );
    assert(out.columns@[6].values() =~= column_of(stored, 6));
    out.set_len(rows.len());
    proof {
        assert(out.storages().len() == 7);
        filled_columns(out, stored);
        supplier_columns_hold_the_fields(rows@, out);
    }
    out
}

/// A row of the partsupp table.
#[derive(Debug, PartialEq, Eq)]
pub struct PartSuppRow {
    pub ps_partkey: i64,
    pub ps_suppkey: i64,
    pub ps_availqty: i32,
    pub ps_supplycost: i64,
    pub ps_comment: &'static str,
}

impl View for PartSuppRow {
    type V = Seq<Value>;

    /// The fields, in column order.
    open spec fn view(&self) -> Seq<Value> {
        seq![
            Value::Int64(self.ps_partkey),
            Value::Int64(self.ps_suppkey),
            Value::Int32(self.ps_availqty),
            Value::Int64(self.ps_supplycost),
            Value::Text(self.ps_comment@),
        ]
    }
}

/// Writes a batch of partsupp rows into a chunk, one row below the other.
pub fn write_partsupp(rows: &Vec<PartSuppRow>) -> (out: Chunk)
    requires
        rows@.len() <= BATCH_SIZE,
    ensures
        out.wf(),
        out.storages() == storages(TpchTable::Partsupp.columns()),
        out.rows() == rows@.map_values(|row: PartSuppRow| row@),
        out.columns@.len() == 5,
        out.columns@[0] matches ColumnData::Int64(v) && v@ == rows@.map_values(
            |r: PartSuppRow| r.ps_partkey,
        ),
        out.columns@[1] matches ColumnData::Int64(v) && v@ == rows@.map_values(
            |r: PartSuppRow| r.ps_suppkey,
        ),
        out.columns@[2] matches ColumnData::Int32(v) && v@ == rows@.map_values(
            |r: PartSuppRow| r.ps_availqty,
        ),
        out.columns@[3] matches ColumnData::Int64(v) && v@ == rows@.map_values(
            |r: PartSuppRow| r.ps_supplycost,
        ),
        out.columns@[4] matches ColumnData::Text(v) && v@.map_values(|t: String| t@)
            == rows@.map_values(|r: PartSuppRow| r.ps_comment@),
{
    let ghost stored = rows@.map_values(|row: PartSuppRow| row@);
    let mut out = Chunk::with_columns(&TpchTable::Partsupp.schema());
    assert(out.columns@.len() == out.storages().len() == 5);
    out.put_i64(0, rows, |r: &PartSuppRow| -> (v: i64) ensures v == r.ps_partkey { r.ps_partkey });
    assert(out.columns@[0].values() =~= column_of(stored, 0));
    out.put_i64(1, rows, |r: &PartSuppRow| -> (v: i64) ensures v == r.ps_suppkey { r.ps_suppkey });
    assert(out.columns@[1].values() =~= column_of(stored, 1));
    out.put_i32(
        2,
        rows,
        |r: &PartSuppRow| -> (v: i32) ensures v == r.ps_availqty { r.ps_availqty },
    );
    assert(out.columns@[2].values() =~= column_of(stored, 2));
    out.put_i64(
        3,
        rows,
        |r: &PartSuppRow| -> (v: i64) ensures v == r.ps_supplycost { r.ps_supplycost },
    );
    assert(out.columns@[3].values() =~= column_of(stored, 3));
    out.put_str(
        4,
        rows,
        |r: &PartSuppRow| -> (v: &'static str) ensures v@ == r.ps_comment@ { r.ps_comment },
    );
    assert(out.columns@[4].values() =~= column_of(stored, 4));
    out.set_len(rows.len());
    proof {
        assert(out.storages().len() == 5);
        filled_columns(out, stored);
        partsupp_columns_hold_the_fields(rows@, out);
    }
    out
}

/// A row of the customer table.
#[derive(Debug, PartialEq, Eq)]
pub struct CustomerRow {
    pub c_custkey: i64,
    pub c_name: String,
    pub c_address: String,
    pub c_nationkey: i64,
    pub c_phone: String,
    pub c_acctbal: i64,
    pub c_mktsegment: &'static str,
    pub c_comment: &'static str,
}

impl View for CustomerRow {
    type V = Seq<Value>;

    /// The fields, in column order.
    open spec fn view(&self) -> Seq<Value> {
        seq![
            Value::Int64(self.c_custkey),
            Value::Text(self.c_name@),
            Value::Text(self.c_address@),
            Value::Int64(self.c_nationkey),
            Value::Text(self.c_phone@),
            Value::Int64(self.c_acctbal),
            Value::Text(self.c_mktsegment@),
            Value::Text(self.c_comment@),
        ]
    }
}

/// Writes a batch of customer rows into a chunk, one row below the other.
pub fn write_customer(rows: &Vec<CustomerRow>) -> (out: Chunk)
    requires
        rows@.len() <= BATCH_SIZE,
    ensures
        out.wf(),
        out.storages() == storages(TpchTable::Customer.columns()),
        out.rows() == rows@.map_values(|row: CustomerRow| row@),
        out.columns@.len() == 8,
        out.columns@[0] matches ColumnData::Int64(v) && v@ == rows@.map_values(
            |r: CustomerRow| r.c_custkey,
        ),
        out.columns@[1] matches ColumnData::Text(v) && v@.map_values(|t: String| t@)
            == rows@.map_values(|r: CustomerRow| r.c_name@),
        out.columns@[2] matches ColumnData::Text(v) && v@.map_values(|t: String| t@)
            == rows@.map_values(|r: CustomerRow| r.c_address@),
        out.columns@[3] matches ColumnData::Int64(v) && v@ == rows@.map_values(
            |r: CustomerRow| r.c_nationkey,
        ),
        out.columns@[4] matches ColumnData::Text(v) && v@.map_values(|t: String| t@)
            == rows@.map_values(|r: CustomerRow| r.c_phone@),
        out.columns@[5] matches ColumnData::Int64(v) && v@ == rows@.map_values(
            |r: CustomerRow| r.c_acctbal,
        ),
        out.columns@[6] matches ColumnData::Text(v) && v@.map_values(|t: String| t@)
            == rows@.map_values(|r: CustomerRow| r.c_mktsegment@),
        out.columns@[7] matches ColumnData::Text(v) && v@.map_values(|t: String| t@)
            == rows@.map_values(|r: CustomerRow| r.c_comment@),
{
    let ghost stored = rows@.map_values(|row: CustomerRow| row@);
    let mut out = Chunk::with_columns(&TpchTable::Customer.schema());
    assert(out.columns@.len() == out.storages().len() == 8);
    out.put_i64(0, rows, |r: &CustomerRow| -> (v: i64) ensures v == r.c_custkey { r.c_custkey });
    assert(out.columns@[0].values() =~= column_of(stored, 0));
    out.put_display(
        1,
        rows,
        |r: &CustomerRow| -> (v: String) ensures v@ == r.c_name@ { r.c_name.clone() },
    );
    assert(out.columns@[1].values() =~= column_of(stored, 1));
    out.put_display(
        2,
        rows,
        |r: &CustomerRow| -> (v: String) ensures v@ == r.c_address@ { r.c_address.clone() },
    );
    assert(out.columns@[2].values() =~= column_of(stored, 2));
    out.put_i64(
        3,
        rows,
        |r: &CustomerRow| -> (v: i64) ensures v == r.c_nationkey { r.c_nationkey },
    );
    assert(out.columns@[3].values() =~= column_of(stored, 3));
    out.put_display(
        4,
        rows,
        |r: &CustomerRow| -> (v: String) ensures v@ == r.c_phone@ { r.c_phone.clone() },
    );
    assert(out.columns@[4].values() =~= column_of(stored, 4));
    out.put_i64(5, rows, |r: &CustomerRow| -> (v: i64) ensures v == r.c_acctbal { r.c_acctbal });
    assert(out.columns@[5].values() =~= column_of(stored, 5));
    out.put_str(
        6,
        rows,
        |r: &CustomerRow| -> (v: &'static str) ensures v@ == r.c_mktsegment@ { r.c_mktsegment },
    );
    assert(out.columns@[6].values() =~= column_of(stored, 6));
    out.put_str(
        7,
        rows,
        |r: &CustomerRow| -> (v: &'static str) ensures v@ == r.c_comment@ { r.c_comment },
    );
    assert(out.columns@[7].values() =~= column_of(stored, 7));
    out.set_len(rows.len());
    proof {
        assert(out.storages().len() == 8);
        filled_columns(out, stored);
        customer_columns_hold_the_fields(rows@, out);
    }
    out
}

/// A row of the orders table.
#[derive(Debug, PartialEq, Eq)]
pub struct OrderRow {
    pub o_orderkey: i64,
    pub o_custkey: i64,
    pub o_orderstatus: String,
    pub o_totalprice: i64,
    pub o_orderdate: i32,
    pub o_orderpriority: &'static str,
    pub o_clerk: String,
    pub o_shippriority: i32,
    pub o_comment: &'static str,
}

impl View for OrderRow {
    type V = Seq<Value>;

    /// The fields, in column order.
    open spec fn view(&self) -> Seq<Value> {
        seq![
            Value::Int64(self.o_orderkey),
            Value::Int64(self.o_custkey),
            Value::Text(self.o_orderstatus@),
            Value::Int64(self.o_totalprice),
            Value::Int32(self.o_orderdate),
            Value::Text(self.o_orderpriority@),
            Value::Text(self.o_clerk@),
            Value::Int32(self.o_shippriority),
            Value::Text(self.o_comment@),
        ]
    }
}

/// Writes a batch of orders rows into a chunk, one row below the other.
pub fn write_orders(rows: &Vec<OrderRow>) -> (out: Chunk)
    requires
        rows@.len() <= BATCH_SIZE,
    ensures
        out.wf(),
        out.storages() == storages(TpchTable::Orders.columns()),
        out.rows() == rows@.map_values(|row: OrderRow| row@),
        out.columns@.len() == 9,
        out.columns@[0] matches ColumnData::Int64(v) && v@ == rows@.map_values(
            |r: OrderRow| r.o_orderkey,
        ),
        out.columns@[1] matches ColumnData::Int64(v) && v@ == rows@.map_values(
            |r: OrderRow| r.o_custkey,
        ),
        out.columns@[2] matches ColumnData::Text(v) && v@.map_values(|t: String| t@)
            == rows@.map_values(|r: OrderRow| r.o_orderstatus@),
        out.columns@[3] matches ColumnData::Int64(v) && v@ == rows@.map_values(
            |r: OrderRow| r.o_totalprice,
        ),
        out.columns@[4] matches ColumnData::Int32(v) && v@ == rows@.map_values(
            |r: OrderRow| r.o_orderdate,
        ),
        out.columns@[5] matches ColumnData::Text(v) && v@.map_values(|t: String| t@)
            == rows@.map_values(|r: OrderRow| r.o_orderpriority@),
        out.columns@[6] matches ColumnData::Text(v) && v@.map_values(|t: String| t@)
            == rows@.map_values(|r: OrderRow| r.o_clerk@),
        out.columns@[7] matches ColumnData::Int32(v) && v@ == rows@.map_values(
            |r: OrderRow| r.o_shippriority,
        ),
        out.columns@[8] matches ColumnData::Text(v) && v@.map_values(|t: String| t@)
            == rows@.map_values(|r: OrderRow| r.o_comment@),
{
    let ghost stored = rows@.map_values(|row: OrderRow| row@);
    let mut out = Chunk::with_columns(&TpchTable::Orders.schema());
    assert(out.columns@.len() == out.storages().len() == 9);
    out.put_i64(0, rows, |r: &OrderRow| -> (v: i64) ensures v == r.o_orderkey { r.o_orderkey });
    assert(out.columns@[0].values() =~= column_of(stored, 0));
    out.put_i64(1, rows, |r: &OrderRow| -> (v: i64) ensures v == r.o_custkey { r.o_custkey });
    assert(out.columns@[1].values() =~= column_of(stored, 1));
    out.put_display(
        2,
        rows,
        |r: &OrderRow| -> (v: String) ensures v@ == r.o_orderstatus@ { r.o_orderstatus.clone() },
    );
    assert(out.columns@[2].values() =~= column_of(stored, 2));
    out.put_i64(3, rows, |r: &OrderRow| -> (v: i64) ensures v == r.o_totalprice { r.o_totalprice });
    assert(out.columns@[3].values() =~= column_of(stored, 3));
    out.put_i32(4, rows, |r: &OrderRow| -> (v: i32) ensures v == r.o_orderdate { r.o_orderdate });
    assert(out.columns@[4].values() =~= column_of(stored, 4));
    out.put_str(
        5,
        rows,
        |r: &OrderRow| -> (v: &'static str) ensures v@ == r.o_orderpriority@ { r.o_orderpriority },
    );
    assert(out.columns@[5].values() =~= column_of(stored, 5));
    out.put_display(
        6,
        rows,
        |r: &OrderRow| -> (v: String) ensures v@ == r.o_clerk@ { r.o_clerk.clone() },
    );
    assert(out.columns@[6].values() =~= column_of(stored, 6));
    out.put_i32(
        7,
        rows,
        |r: &OrderRow| -> (v: i32) ensures v == r.o_shippriority { r.o_shippriority },
    );
    assert(out.columns@[7].values() =~= column_of(stored, 7));
    out.put_str(
        8,
        rows,
        |r: &OrderRow| -> (v: &'static str) ensures v@ == r.o_comment@ { r.o_comment },
    );
    assert(out.columns@[8].values() =~= column_of(stored, 8));
    out.set_len(rows.len());
    proof {
        assert(out.storages().len() == 9);
        filled_columns(out, stored);
        orders_columns_hold_the_fields(rows@, out);
    }
    out
}

/// A row of the lineitem table.
#[derive(Debug, PartialEq, Eq)]
pub struct LineItemRow {
    pub l_orderkey: i64,
    pub l_partkey: i64,
    pub l_suppkey: i64,
    pub l_linenumber: i32,
    pub l_quantity: i64,
    pub l_extendedprice: i64,
    pub l_discount: i64,
    pub l_tax: i64,
    pub l_returnflag: &'static str,
    pub l_linestatus: &'static str,
    pub l_shipdate: i32,
    pub l_commitdate: i32,
    pub l_receiptdate: i32,
    pub l_shipinstruct: &'static str,
    pub l_shipmode: &'static str,
    pub l_comment: &'static str,
}

impl View for LineItemRow {
    type V = Seq<Value>;

    /// The fields, in column order.
    open spec fn view(&self) -> Seq<Value> {
        seq![
            Value::Int64(self.l_orderkey),
            Value::Int64(self.l_partkey),
            Value::Int64(self.l_suppkey),
            Value::Int32(self.l_linenumber),
            Value::Int64(self.l_quantity),
            Value::Int64(self.l_extendedprice),
            Value::Int64(self.l_discount),
            Value::Int64(self.l_tax),
            Value::Text(self.l_returnflag@),
            Value::Text(self.l_linestatus@),
            Value::Int32(self.l_shipdate),
            Value::Int32(self.l_commitdate),
            Value::Int32(self.l_receiptdate),
            Value::Text(self.l_shipinstruct@),
            Value::Text(self.l_shipmode@),
            Value::Text(self.l_comment@),
        ]
    }
}

/// `l_quantity` is generated as a whole number; stored, it is scaled to `DECIMAL(15, 2)`.
pub open spec fn scaled_quantity(quantity: i64) -> int {
    quantity * 100
}

impl LineItemRow {
    /// The scaled quantity fits its column.
    pub open spec fn quantity_fits(self) -> bool {
        i64::MIN <= scaled_quantity(self.l_quantity) <= i64::MAX
    }
}

/// The position of `l_quantity` among the columns.
pub open spec fn quantity_column() -> int {
    4
}

/// What is stored of a line item whose fields are `fields`: the same values, but for the scaled
/// quantity.
pub open spec fn stored_lineitem(fields: Seq<Value>) -> Seq<Value> {
    match fields[quantity_column()] {
        Value::Int64(quantity) => fields.update(
            quantity_column(),
            Value::Int64(scaled_quantity(quantity) as i64),
        ),
        _ => fields,
    }
}

/// `fields` are those of a line item whose quantity is one that occurs: from 1 to 50.
pub open spec fn quantity_occurs(fields: Seq<Value>) -> bool {
    &&& fields.len() == 16
    &&& fields[quantity_column()] matches Value::Int64(quantity) && 1 <= quantity <= 50
}

/// `stored` has the quantity of the line item with these `fields` a hundredfold.
pub open spec fn quantity_is_scaled(fields: Seq<Value>, stored: Seq<Value>) -> bool {
    match (fields[quantity_column()], stored[quantity_column()]) {
        (Value::Int64(quantity), Value::Int64(scaled)) => scaled == quantity * 100,
        _ => false,
    }
}

/// Writes a batch of lineitem rows into a chunk, one row below the other.
pub fn write_lineitem(rows: &Vec<LineItemRow>) -> (out: Chunk)
    requires
        rows@.len() <= BATCH_SIZE,
        forall|i: int| 0 <= i < rows@.len() ==> (#[trigger] rows@[i]).quantity_fits(),
    ensures
        out.wf(),
        out.storages() == storages(TpchTable::Lineitem.columns()),
        out.rows() == rows@.map_values(|row: LineItemRow| stored_lineitem(row@)),
        forall|i: int|
            0 <= i < rows@.len() ==> quantity_is_scaled(rows@[i]@, #[trigger] out.rows()[i]),
        out.columns@.len() == 16,
        out.columns@[0] matches ColumnData::Int64(v) && v@ == rows@.map_values(
            |r: LineItemRow| r.l_orderkey,
        ),
        out.columns@[1] matches ColumnData::Int64(v) && v@ == rows@.map_values(
            |r: LineItemRow| r.l_partkey,
        ),
        out.columns@[2] matches ColumnData::Int64(v) && v@ == rows@.map_values(
            |r: LineItemRow| r.l_suppkey,
        ),
        out.columns@[3] matches ColumnData::Int32(v) && v@ == rows@.map_values(
            |r: LineItemRow| r.l_linenumber,
        ),
        out.columns@[4] matches ColumnData::Int64(v) && v@.len() == rows@.len() && forall|i: int|
            0 <= i < rows@.len() ==> #[trigger] v@[i] == rows@[i].l_quantity * 100,
        out.columns@[5] matches ColumnData::Int64(v) && v@ == rows@.map_values(
            |r: LineItemRow| r.l_extendedprice,
        ),
        out.columns@[6] matches ColumnData::Int64(v) && v@ == rows@.map_values(
            |r: LineItemRow| r.l_discount,
        ),
        out.columns@[7] matches ColumnData::Int64(v) && v@ == rows@.map_values(
            |r: LineItemRow| r.l_tax,
        ),
        out.columns@[8] matches ColumnData::Text(v) && v@.map_values(|t: String| t@)
            == rows@.map_values(|r: LineItemRow| r.l_returnflag@),
        out.columns@[9] matches ColumnData::Text(v) && v@.map_values(|t: String| t@)
            == rows@.map_values(|r: LineItemRow| r.l_linestatus@),
        out.columns@[10] matches ColumnData::Int32(v) && v@ == rows@.map_values(
            |r: LineItemRow| r.l_shipdate,
        ),
        out.columns@[11] matches ColumnData::Int32(v) && v@ == rows@.map_values(
            |r: LineItemRow| r.l_commitdate,
        ),
        out.columns@[12] matches ColumnData::Int32(v) && v@ == rows@.map_values(
            |r: LineItemRow| r.l_receiptdate,
        ),
        out.columns@[13] matches ColumnData::Text(v) && v@.map_values(|t: String| t@)
            == rows@.map_values(|r: LineItemRow| r.l_shipinstruct@),
        out.columns@[14] matches ColumnData::Text(v) && v@.map_values(|t: String| t@)
            == rows@.map_values(|r: LineItemRow| r.l_shipmode@),
        out.columns@[15] matches ColumnData::Text(v) && v@.map_values(|t: String| t@)
            == rows@.map_values(|r: LineItemRow| r.l_comment@),
{
    let ghost stored = rows@.map_values(|row: LineItemRow| stored_lineitem(row@));
    let mut out = Chunk::with_columns(&TpchTable::Lineitem.schema());
    assert(out.columns@.len() == out.storages().len() == 16);
    out.put_i64(0, rows, |r: &LineItemRow| -> (v: i64) ensures v == r.l_orderkey { r.l_orderkey });
    assert(out.columns@[0].values() =~= column_of(stored, 0));
    out.put_i64(1, rows, |r: &LineItemRow| -> (v: i64) ensures v == r.l_partkey { r.l_partkey });
    assert(out.columns@[1].values() =~= column_of(stored, 1));
    out.put_i64(2, rows, |r: &LineItemRow| -> (v: i64) ensures v == r.l_suppkey { r.l_suppkey });
    assert(out.columns@[2].values() =~= column_of(stored, 2));
    out.put_i32(
        3,
        rows,
        |r: &LineItemRow| -> (v: i32) ensures v == r.l_linenumber { r.l_linenumber },
    );
    assert(out.columns@[3].values() =~= column_of(stored, 3));
    out.put_i64(
        4,
        rows,
        |r: &LineItemRow| -> (v: i64)
            requires r.quantity_fits()
            ensures v == scaled_quantity(r.l_quantity)
            { r.l_quantity * 100 },
    );
    assert(out.columns@[4].values() =~= column_of(stored, 4));
    out.put_i64(
        5,
        rows,
        |r: &LineItemRow| -> (v: i64) ensures v == r.l_extendedprice { r.l_extendedprice },
    );
    assert(out.columns@[5].values() =~= column_of(stored, 5));
    out.put_i64(6, rows, |r: &LineItemRow| -> (v: i64) ensures v == r.l_discount { r.l_discount });
    assert(out.columns@[6].values() =~= column_of(stored, 6));
    out.put_i64(7, rows, |r: &LineItemRow| -> (v: i64) ensures v == r.l_tax { r.l_tax });
    assert(out.columns@[7].values() =~= column_of(stored, 7));
    out.put_str(
        8,
        rows,
        |r: &LineItemRow| -> (v: &'static str) ensures v@ == r.l_returnflag@ { r.l_returnflag },
    );
    assert(out.columns@[8].values() =~= column_of(stored, 8));
    out.put_str(
        9,
        rows,
        |r: &LineItemRow| -> (v: &'static str) ensures v@ == r.l_linestatus@ { r.l_linestatus },
    );
    assert(out.columns@[9].values() =~= column_of(stored, 9));
    out.put_i32(10, rows, |r: &LineItemRow| -> (v: i32) ensures v == r.l_shipdate { r.l_shipdate });
    assert(out.columns@[10].values() =~= column_of(stored, 10));
    out.put_i32(
        11,
        rows,
        |r: &LineItemRow| -> (v: i32) ensures v == r.l_commitdate { r.l_commitdate },
    );
    assert(out.columns@[11].values() =~= column_of(stored, 11));
    out.put_i32(
        12,
        rows,
        |r: &LineItemRow| -> (v: i32) ensures v == r.l_receiptdate { r.l_receiptdate },
    );
    assert(out.columns@[12].values() =~= column_of(stored, 12));
    out.put_str(
        13,
        rows,
        |r: &LineItemRow| -> (v: &'static str) ensures v@ == r.l_shipinstruct@ { r.l_shipinstruct },
    );
    assert(out.columns@[13].values() =~= column_of(stored, 13));
    out.put_str(
        14,
        rows,
        |r: &LineItemRow| -> (v: &'static str) ensures v@ == r.l_shipmode@ { r.l_shipmode },
    );
    assert(out.columns@[14].values() =~= column_of(stored, 14));
    out.put_str(
        15,
        rows,
        |r: &LineItemRow| -> (v: &'static str) ensures v@ == r.l_comment@ { r.l_comment },
    );
    assert(out.columns@[15].values() =~= column_of(stored, 15));
    out.set_len(rows.len());
    proof {
        assert(out.storages().len() == 16);
        filled_columns(out, stored);
        lineitem_columns_hold_the_fields(rows@, out);
    }
    out
}

} // verus!
