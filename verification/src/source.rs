//! Row sources: the generators seen as streams of rows that are written batch by batch.

use crate::chunk::{Chunk, Value, BATCH_SIZE};
use crate::generators::{
    customer_pending, lineitem_parts, lineitem_pending, lineitem_suppliers, nation_pending,
    next_customer, next_lineitem, next_nation, next_orders, next_part, next_partsupp, next_region,
    next_supplier, orders_customers, orders_parts, orders_pending, part_pending, partsupp_pending,
    partsupp_suppliers, region_pending, supplier_pending, MAX_PARTS_OF_ORDERS, UNDRAWABLE,
};
use crate::rows::{
    stored_lineitem, write_customer, write_lineitem, write_nation, write_orders, write_part,
    write_partsupp, write_region, write_supplier, CustomerRow, LineItemRow, NationRow, OrderRow,
    PartRow, PartSuppRow, RegionRow, SupplierRow,
};
use crate::schema::storages;
use crate::table::TpchTable;
use tpchgen::generators::{
    CustomerGeneratorIterator, LineItemGeneratorIterator, NationGeneratorIterator,
    OrderGeneratorIterator, PartGeneratorIterator, PartSuppGeneratorIterator,
    RegionGeneratorIterator, SupplierGeneratorIterator,
};
use vstd::prelude::*;

verus! {

/// A stream of the rows of one table that knows how a batch of them is written.
pub trait RowSource: Sized {
    type Row: View<V = Seq<Value>>;

    /// The table whose rows these are.
    spec fn table() -> TpchTable;

    /// The source can be asked for its next row.
    spec fn ready(&self) -> bool;

    /// The rows still to come, as lists of their fields.
    spec fn pending(&self) -> Seq<Seq<Value>>;

    /// What is stored of a row with these fields.
    spec fn stored(fields: Seq<Value>) -> Seq<Value>;

    /// The row can be written.
    spec fn writable(row: Self::Row) -> bool;

    /// Takes the first of the rows still to come.
    fn next_row(&mut self) -> (row: Option<Self::Row>)
        requires
            old(self).ready(),
        ensures
            final(self).ready(),
            match row {
                Some(r) => {
                    &&& old(self).pending().len() > 0
                    &&& r@ == old(self).pending()[0]
                    &&& final(self).pending() == old(self).pending().drop_first()
                    &&& Self::writable(r)
                },
                None => {
                    &&& old(self).pending().len() == 0
                    &&& final(self).pending() == old(self).pending()
                },
            },
    ;

    /// Writes a batch of rows into a chunk.
    fn write(rows: &Vec<Self::Row>) -> (out: Chunk)
        requires
            rows@.len() <= BATCH_SIZE,
            forall|i: int| 0 <= i < rows@.len() ==> Self::writable(#[trigger] rows@[i]),
        ensures
            out.wf(),
            out.storages() == storages(Self::table().columns()),
            out.rows() == rows@.map_values(|row: Self::Row| Self::stored(row@)),
    ;
}

impl RowSource for NationGeneratorIterator<'static> {
    type Row = NationRow;

    open spec fn table() -> TpchTable {
        TpchTable::Nation
    }

    open spec fn ready(&self) -> bool {
        true
    }

    open spec fn pending(&self) -> Seq<Seq<Value>> {
        nation_pending(*self)
    }

    open spec fn stored(fields: Seq<Value>) -> Seq<Value> {
        fields
    }

    open spec fn writable(row: NationRow) -> bool {
        true
    }

    fn next_row(&mut self) -> (row: Option<NationRow>) {
        next_nation(self)
    }

    fn write(rows: &Vec<NationRow>) -> (out: Chunk) {
        let out = write_nation(rows);
        assert(out.rows() =~= rows@.map_values(|row: NationRow| Self::stored(row@)));
        out
    }
}

impl RowSource for RegionGeneratorIterator<'static> {
    type Row = RegionRow;

    open spec fn table() -> TpchTable {
        TpchTable::Region
    }

    open spec fn ready(&self) -> bool {
        true
    }

    open spec fn pending(&self) -> Seq<Seq<Value>> {
        region_pending(*self)
    }

    open spec fn stored(fields: Seq<Value>) -> Seq<Value> {
        fields
    }

    open spec fn writable(row: RegionRow) -> bool {
        true
    }

    fn next_row(&mut self) -> (row: Option<RegionRow>) {
        next_region(self)
    }

    fn write(rows: &Vec<RegionRow>) -> (out: Chunk) {
        let out = write_region(rows);
        assert(out.rows() =~= rows@.map_values(|row: RegionRow| Self::stored(row@)));
        out
    }
}

impl RowSource for PartGeneratorIterator<'static> {
    type Row = PartRow;

    open spec fn table() -> TpchTable {
        TpchTable::Part
    }

    open spec fn ready(&self) -> bool {
        true
    }

    open spec fn pending(&self) -> Seq<Seq<Value>> {
        part_pending(*self)
    }

    open spec fn stored(fields: Seq<Value>) -> Seq<Value> {
        fields
    }

    open spec fn writable(row: PartRow) -> bool {
        true
    }

    fn next_row(&mut self) -> (row: Option<PartRow>) {
        next_part(self)
    }

    fn write(rows: &Vec<PartRow>) -> (out: Chunk) {
        let out = write_part(rows);
        assert(out.rows() =~= rows@.map_values(|row: PartRow| Self::stored(row@)));
        out
    }
}

impl RowSource for SupplierGeneratorIterator<'static> {
    type Row = SupplierRow;

    open spec fn table() -> TpchTable {
        TpchTable::Supplier
    }

    open spec fn ready(&self) -> bool {
        true
    }

    open spec fn pending(&self) -> Seq<Seq<Value>> {
        supplier_pending(*self)
    }

    open spec fn stored(fields: Seq<Value>) -> Seq<Value> {
        fields
    }

    open spec fn writable(row: SupplierRow) -> bool {
        true
    }

    fn next_row(&mut self) -> (row: Option<SupplierRow>) {
        next_supplier(self)
    }

    fn write(rows: &Vec<SupplierRow>) -> (out: Chunk) {
        let out = write_supplier(rows);
        assert(out.rows() =~= rows@.map_values(|row: SupplierRow| Self::stored(row@)));
        out
    }
}

impl RowSource for PartSuppGeneratorIterator<'static> {
    type Row = PartSuppRow;

    open spec fn table() -> TpchTable {
        TpchTable::Partsupp
    }

    open spec fn ready(&self) -> bool {
        partsupp_suppliers(*self) != 0 || partsupp_pending(*self).len() == 0
    }

    open spec fn pending(&self) -> Seq<Seq<Value>> {
        partsupp_pending(*self)
    }

    open spec fn stored(fields: Seq<Value>) -> Seq<Value> {
        fields
    }

    open spec fn writable(row: PartSuppRow) -> bool {
        true
    }

    fn next_row(&mut self) -> (row: Option<PartSuppRow>) {
        next_partsupp(self)
    }

    fn write(rows: &Vec<PartSuppRow>) -> (out: Chunk) {
        let out = write_partsupp(rows);
        assert(out.rows() =~= rows@.map_values(|row: PartSuppRow| Self::stored(row@)));
        out
    }
}

impl RowSource for CustomerGeneratorIterator<'static> {
    type Row = CustomerRow;

    open spec fn table() -> TpchTable {
        TpchTable::Customer
    }

    open spec fn ready(&self) -> bool {
        true
    }

    open spec fn pending(&self) -> Seq<Seq<Value>> {
        customer_pending(*self)
    }

    open spec fn stored(fields: Seq<Value>) -> Seq<Value> {
        fields
    }

    open spec fn writable(row: CustomerRow) -> bool {
        true
    }

    fn next_row(&mut self) -> (row: Option<CustomerRow>) {
        next_customer(self)
    }

    fn write(rows: &Vec<CustomerRow>) -> (out: Chunk) {
        let out = write_customer(rows);
        assert(out.rows() =~= rows@.map_values(|row: CustomerRow| Self::stored(row@)));
        out
    }
}

impl RowSource for OrderGeneratorIterator<'static> {
    type Row = OrderRow;

    open spec fn table() -> TpchTable {
        TpchTable::Orders
    }

    open spec fn ready(&self) -> bool {
        &&& orders_parts(*self) <= MAX_PARTS_OF_ORDERS
        &&& orders_parts(*self) != UNDRAWABLE
        &&& orders_customers(*self) != UNDRAWABLE
    }

    open spec fn pending(&self) -> Seq<Seq<Value>> {
        orders_pending(*self)
    }

    open spec fn stored(fields: Seq<Value>) -> Seq<Value> {
        fields
    }

    open spec fn writable(row: OrderRow) -> bool {
        true
    }

    fn next_row(&mut self) -> (row: Option<OrderRow>) {
        next_orders(self)
    }

    fn write(rows: &Vec<OrderRow>) -> (out: Chunk) {
        let out = write_orders(rows);
        assert(out.rows() =~= rows@.map_values(|row: OrderRow| Self::stored(row@)));
        out
    }
}

impl RowSource for LineItemGeneratorIterator<'static> {
    type Row = LineItemRow;

    open spec fn table() -> TpchTable {
        TpchTable::Lineitem
    }

    open spec fn ready(&self) -> bool {
        &&& lineitem_parts(*self) <= MAX_PARTS_OF_ORDERS
        &&& lineitem_parts(*self) != UNDRAWABLE
        &&& lineitem_suppliers(*self) != 0 || lineitem_pending(*self).len() == 0
    }

    open spec fn pending(&self) -> Seq<Seq<Value>> {
        lineitem_pending(*self)
    }

    open spec fn stored(fields: Seq<Value>) -> Seq<Value> {
        stored_lineitem(fields)
    }

    open spec fn writable(row: LineItemRow) -> bool {
        row.quantity_fits()
    }

    fn next_row(&mut self) -> (row: Option<LineItemRow>) {
        next_lineitem(self)
    }

    fn write(rows: &Vec<LineItemRow>) -> (out: Chunk) {
        let out = write_lineitem(rows);
        assert(out.rows() =~= rows@.map_values(|row: LineItemRow| Self::stored(row@)));
        out
    }
}

} // verus!
