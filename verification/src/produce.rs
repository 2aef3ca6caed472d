//! Producing one partition of a table.

use crate::chunk::{row_conforms, Value, BATCH_SIZE};
use crate::generators::{
    count_customers, count_orders, count_parts, count_suppliers, customer_rows, customers_at,
    is_next_piece, is_scale_factor, joined_partitions, lineitem_rows, nation_rows, open_customer,
    open_lineitem, open_nation, open_orders, open_part, open_partsupp, open_region, open_supplier,
    orders_at, orders_rows, part_rows, parts_at, partsupp_rows, region_rows, share, supplier_rows,
    suppliers_at, MAX_CUSTOMERS, MAX_ITEMIZED_ORDERS, MAX_ORDERS, MAX_PARTS, MAX_PARTS_OF_ORDERS,
    MAX_SUPPLIED_PARTS, MAX_SUPPLIERS, UNDRAWABLE,
};
use crate::pump::{
    batches, batches_hold_all_rows, pending_stored, pump, pumped, stopped_at_refusal, JobSender,
    PumpEnd,
};
use crate::rows::{quantity_is_scaled, quantity_occurs, stored_lineitem};
use crate::source::RowSource;
use crate::table::TpchTable;
use vstd::prelude::*;

verus! {

/// Why a partition cannot be produced.
#[derive(Debug, Clone, Copy, PartialEq, Eq, Structural)]
pub enum ProduceError {
    /// The scale factor is no number.
    InvalidScale,
    /// The generators cannot compute the table at this scale factor.
    UnsupportedScale,
}

/// The generators can compute `table` at scale factor `scale`: the counts that their arithmetic
/// goes by stay within its range, and wherever there is a row that names a supplier there is a
/// supplier.
pub open spec fn scale_supported(table: TpchTable, scale: Seq<char>) -> bool {
    let parts = parts_at(scale);
    let suppliers = suppliers_at(scale);
    let customers = customers_at(scale);
    let orders = orders_at(scale);
    match table {
        TpchTable::Nation | TpchTable::Region => true,
        TpchTable::Part => -MAX_PARTS <= parts <= MAX_PARTS,
        TpchTable::Supplier => -MAX_SUPPLIERS <= suppliers <= MAX_SUPPLIERS,
        TpchTable::Partsupp => -MAX_SUPPLIED_PARTS <= parts <= MAX_SUPPLIED_PARTS && (suppliers
            != 0 || parts <= 0),
        TpchTable::Customer => -MAX_CUSTOMERS <= customers <= MAX_CUSTOMERS,
        TpchTable::Orders => -MAX_ORDERS <= orders <= MAX_ORDERS && parts <= MAX_PARTS_OF_ORDERS
            && parts != UNDRAWABLE && customers != UNDRAWABLE,
        TpchTable::Lineitem => -MAX_ITEMIZED_ORDERS <= orders <= MAX_ITEMIZED_ORDERS && parts
            <= MAX_PARTS_OF_ORDERS && parts != UNDRAWABLE && (suppliers != 0 || orders <= 0),
    }
}

/// What is stored of partition `part` of `part_count` of `table` at scale factor `scale`.
pub open spec fn table_rows(
    table: TpchTable,
    scale: Seq<char>,
    part: i32,
    part_count: i32,
) -> Seq<Seq<Value>> {
    match table {
        TpchTable::Nation => nation_rows(scale, part, part_count),
        TpchTable::Region => region_rows(scale, part, part_count),
        TpchTable::Part => part_rows(scale, part, part_count),
        TpchTable::Supplier => supplier_rows(scale, part, part_count),
        TpchTable::Partsupp => partsupp_rows(scale, part, part_count),
        TpchTable::Customer => customer_rows(scale, part, part_count),
        TpchTable::Orders => orders_rows(scale, part, part_count),
        TpchTable::Lineitem => lineitem_rows(scale, part, part_count).map_values(
            |fields: Seq<Value>| stored_lineitem(fields),
        ),
    }
}

/// What is known of the rows of a partition. A table that cannot be partitioned is in every
/// partition as a whole. Of any other, a partition holds the rows that come right behind those of
/// the partitions before it, and as many as are its share. A generated line item has all its
/// fields, and its quantity is stored a hundredfold.
pub open spec fn rows_are_shared(
    table: TpchTable,
    scale: Seq<char>,
    part: i32,
    part_count: i32,
) -> bool {
    let rows = table_rows(table, scale, part, part_count);
    &&& table.partitionable() ==> is_next_piece(
        table_rows(table, scale, 1, 1),
        joined_partitions(|p: i32| table_rows(table, scale, p, part_count), part - 1),
        rows,
        part == part_count,
    )
    &&& match table {
        TpchTable::Nation | TpchTable::Region => forall|s: Seq<char>, p: i32, n: i32|
            #[trigger] table_rows(table, s, p, n) == rows,
        TpchTable::Part => rows.len() == share(parts_at(scale), part as int, part_count as int),
        TpchTable::Supplier => rows.len() == share(
            suppliers_at(scale),
            part as int,
            part_count as int,
        ),
        TpchTable::Partsupp => rows.len() == 4 * share(
            parts_at(scale),
            part as int,
            part_count as int,
        ),
        TpchTable::Customer => rows.len() == share(
            customers_at(scale),
            part as int,
            part_count as int,
        ),
        TpchTable::Orders => rows.len() == share(orders_at(scale), part as int, part_count as int),
        TpchTable::Lineitem => {
            &&& share(orders_at(scale), part as int, part_count as int) <= rows.len() <= 7 * share(
                orders_at(scale),
                part as int,
                part_count as int,
            )
            &&& quantities_are_scaled(scale, part, part_count)
            &&& forall|i: int|
                0 <= i < lineitem_rows(scale, part, part_count).len() ==> quantity_occurs(
                    #[trigger] lineitem_rows(scale, part, part_count)[i],
                )
        },
    }
}

/// In every row that is stored of a partition of the lineitem table, the quantity is a hundred
/// times the one that was generated for it.
pub open spec fn quantities_are_scaled(scale: Seq<char>, part: i32, part_count: i32) -> bool {
    let rows = table_rows(TpchTable::Lineitem, scale, part, part_count);
    forall|i: int|
        0 <= i < rows.len() ==> quantity_is_scaled(
            lineitem_rows(scale, part, part_count)[i],
            #[trigger] rows[i],
        )
}

/// What producing a partition of `table` has come to: its rows have gone out, batch by batch, to
/// the end or until the receiver went away.
pub open spec fn produced(
    table: TpchTable,
    scale: Seq<char>,
    part: i32,
    part_count: i32,
    before: Seq<Seq<Seq<Value>>>,
    after: Seq<Seq<Seq<Value>>>,
    end: PumpEnd,
) -> bool {
    &&& rows_are_shared(table, scale, part, part_count)
    &&& pumped(before, after, table_rows(table, scale, part, part_count), end)
}

/// Whether the generators can compute `table` at scale factor `scale`.
pub fn check_scale(table: TpchTable, scale: &str) -> (verdict: Result<(), ProduceError>)
    ensures
        match verdict {
            Ok(_) => is_scale_factor(scale@) && scale_supported(table, scale@),
            Err(ProduceError::InvalidScale) => !is_scale_factor(scale@),
            Err(ProduceError::UnsupportedScale) => is_scale_factor(scale@) && !scale_supported(
                table,
                scale@,
            ),
        },
{
    match (
        count_parts(scale),
        count_suppliers(scale),
        count_customers(scale),
        count_orders(scale),
    ) {
        (Some(parts), Some(suppliers), Some(customers), Some(orders)) => {
            let supported = match table {
                TpchTable::Nation | TpchTable::Region => true,
                TpchTable::Part => -MAX_PARTS <= parts && parts <= MAX_PARTS,
                TpchTable::Supplier => -MAX_SUPPLIERS <= suppliers && suppliers <= MAX_SUPPLIERS,
                TpchTable::Partsupp => -MAX_SUPPLIED_PARTS <= parts && parts <= MAX_SUPPLIED_PARTS
                    && (suppliers != 0 || parts <= 0),
                TpchTable::Customer => -MAX_CUSTOMERS <= customers && customers <= MAX_CUSTOMERS,
                TpchTable::Orders => -MAX_ORDERS <= orders && orders <= MAX_ORDERS && parts
                    <= MAX_PARTS_OF_ORDERS && parts != UNDRAWABLE && customers != UNDRAWABLE,
                TpchTable::Lineitem => -MAX_ITEMIZED_ORDERS <= orders && orders
                    <= MAX_ITEMIZED_ORDERS && parts <= MAX_PARTS_OF_ORDERS && parts != UNDRAWABLE
                    && (suppliers != 0 || orders <= 0),
            };
            if supported {
                Ok(())
            } else {
                Err(ProduceError::UnsupportedScale)
            }
        },
        _ => Err(ProduceError::InvalidScale),
    }
}

/// Generates one partition of the nation table and sends it, batch by batch.
pub fn produce_nation(
    scale: &str,
    part: i32,
    part_count: i32,
    tx: &mut JobSender,
) -> (end: PumpEnd)
    requires
        is_scale_factor(scale@),
        old(tx).table() == TpchTable::Nation,
    ensures
        final(tx).table() == old(tx).table(),
        old(tx).conforming() ==> final(tx).conforming(),
        produced(
            TpchTable::Nation,
            scale@,
            part,
            part_count,
            old(tx).accepted(),
            final(tx).accepted(),
            end,
        ),
        stopped_at_refusal(
            *old(tx),
            *final(tx),
            table_rows(TpchTable::Nation, scale@, part, part_count),
            end,
        ),
{
    let mut rows = open_nation(scale, part, part_count);
    assert(pending_stored(rows) =~= table_rows(TpchTable::Nation, scale@, part, part_count));
    pump(&mut rows, tx)
}

/// Generates one partition of the region table and sends it, batch by batch.
pub fn produce_region(
    scale: &str,
    part: i32,
    part_count: i32,
    tx: &mut JobSender,
) -> (end: PumpEnd)
    requires
        is_scale_factor(scale@),
        old(tx).table() == TpchTable::Region,
    ensures
        final(tx).table() == old(tx).table(),
        old(tx).conforming() ==> final(tx).conforming(),
        produced(
            TpchTable::Region,
            scale@,
            part,
            part_count,
            old(tx).accepted(),
            final(tx).accepted(),
            end,
        ),
        stopped_at_refusal(
            *old(tx),
            *final(tx),
            table_rows(TpchTable::Region, scale@, part, part_count),
            end,
        ),
{
    let mut rows = open_region(scale, part, part_count);
    assert(pending_stored(rows) =~= table_rows(TpchTable::Region, scale@, part, part_count));
    pump(&mut rows, tx)
}

/// Generates one partition of the part table and sends it, batch by batch.
pub fn produce_part(
    scale: &str,
    part: i32,
    part_count: i32,
    tx: &mut JobSender,
) -> (end: PumpEnd)
    requires
        is_scale_factor(scale@),
        scale_supported(TpchTable::Part, scale@),
        1 <= part <= part_count,
        old(tx).table() == TpchTable::Part,
    ensures
        final(tx).table() == old(tx).table(),
        old(tx).conforming() ==> final(tx).conforming(),
        produced(
            TpchTable::Part,
            scale@,
            part,
            part_count,
            old(tx).accepted(),
            final(tx).accepted(),
            end,
        ),
        stopped_at_refusal(
            *old(tx),
            *final(tx),
            table_rows(TpchTable::Part, scale@, part, part_count),
            end,
        ),
{
    let mut rows = open_part(scale, part, part_count);
    assert(pending_stored(rows) =~= table_rows(TpchTable::Part, scale@, part, part_count));
    assert((|p: i32| table_rows(TpchTable::Part, scale@, p, part_count)) =~= (|p: i32|
        part_rows(scale@, p, part_count)));
    pump(&mut rows, tx)
}

/// Generates one partition of the supplier table and sends it, batch by batch.
pub fn produce_supplier(
    scale: &str,
    part: i32,
    part_count: i32,
    tx: &mut JobSender,
) -> (end: PumpEnd)
    requires
        is_scale_factor(scale@),
        scale_supported(TpchTable::Supplier, scale@),
        1 <= part <= part_count,
        old(tx).table() == TpchTable::Supplier,
    ensures
        final(tx).table() == old(tx).table(),
        old(tx).conforming() ==> final(tx).conforming(),
        produced(
            TpchTable::Supplier,
            scale@,
            part,
            part_count,
            old(tx).accepted(),
            final(tx).accepted(),
            end,
        ),
        stopped_at_refusal(
            *old(tx),
            *final(tx),
            table_rows(TpchTable::Supplier, scale@, part, part_count),
            end,
        ),
{
    let mut rows = open_supplier(scale, part, part_count);
    assert(pending_stored(rows) =~= table_rows(TpchTable::Supplier, scale@, part, part_count));
    assert((|p: i32| table_rows(TpchTable::Supplier, scale@, p, part_count)) =~= (|p: i32|
        supplier_rows(scale@, p, part_count)));
    pump(&mut rows, tx)
}

/// Generates one partition of the partsupp table and sends it, batch by batch.
pub fn produce_partsupp(
    scale: &str,
    part: i32,
    part_count: i32,
    tx: &mut JobSender,
) -> (end: PumpEnd)
    requires
        is_scale_factor(scale@),
        scale_supported(TpchTable::Partsupp, scale@),
        1 <= part <= part_count,
        old(tx).table() == TpchTable::Partsupp,
    ensures
        final(tx).table() == old(tx).table(),
        old(tx).conforming() ==> final(tx).conforming(),
        produced(
            TpchTable::Partsupp,
            scale@,
            part,
            part_count,
            old(tx).accepted(),
            final(tx).accepted(),
            end,
        ),
        stopped_at_refusal(
            *old(tx),
            *final(tx),
            table_rows(TpchTable::Partsupp, scale@, part, part_count),
            end,
        ),
{
    let mut rows = open_partsupp(scale, part, part_count);
    assert(pending_stored(rows) =~= table_rows(TpchTable::Partsupp, scale@, part, part_count));
    assert((|p: i32| table_rows(TpchTable::Partsupp, scale@, p, part_count)) =~= (|p: i32|
        partsupp_rows(scale@, p, part_count)));
    pump(&mut rows, tx)
}

/// Generates one partition of the customer table and sends it, batch by batch.
pub fn produce_customer(
    scale: &str,
    part: i32,
    part_count: i32,
    tx: &mut JobSender,
) -> (end: PumpEnd)
    requires
        is_scale_factor(scale@),
        scale_supported(TpchTable::Customer, scale@),
        1 <= part <= part_count,
        old(tx).table() == TpchTable::Customer,
    ensures
        final(tx).table() == old(tx).table(),
        old(tx).conforming() ==> final(tx).conforming(),
        produced(
            TpchTable::Customer,
            scale@,
            part,
            part_count,
            old(tx).accepted(),
            final(tx).accepted(),
            end,
        ),
        stopped_at_refusal(
            *old(tx),
            *final(tx),
            table_rows(TpchTable::Customer, scale@, part, part_count),
            end,
        ),
{
    let mut rows = open_customer(scale, part, part_count);
    assert(pending_stored(rows) =~= table_rows(TpchTable::Customer, scale@, part, part_count));
    assert((|p: i32| table_rows(TpchTable::Customer, scale@, p, part_count)) =~= (|p: i32|
        customer_rows(scale@, p, part_count)));
    pump(&mut rows, tx)
}

/// Generates one partition of the orders table and sends it, batch by batch.
pub fn produce_orders(
    scale: &str,
    part: i32,
    part_count: i32,
    tx: &mut JobSender,
) -> (end: PumpEnd)
    requires
        is_scale_factor(scale@),
        scale_supported(TpchTable::Orders, scale@),
        1 <= part <= part_count,
        old(tx).table() == TpchTable::Orders,
    ensures
        final(tx).table() == old(tx).table(),
        old(tx).conforming() ==> final(tx).conforming(),
        produced(
            TpchTable::Orders,
            scale@,
            part,
            part_count,
            old(tx).accepted(),
            final(tx).accepted(),
            end,
        ),
        stopped_at_refusal(
            *old(tx),
            *final(tx),
            table_rows(TpchTable::Orders, scale@, part, part_count),
            end,
        ),
{
    let mut rows = open_orders(scale, part, part_count);
    assert(pending_stored(rows) =~= table_rows(TpchTable::Orders, scale@, part, part_count));
    assert((|p: i32| table_rows(TpchTable::Orders, scale@, p, part_count)) =~= (|p: i32|
        orders_rows(scale@, p, part_count)));
    pump(&mut rows, tx)
}

/// Joining partitions of stored line items is joining the partitions and then storing them.
proof fn stored_lineitems_are_joined(
    fields: spec_fn(i32) -> Seq<Seq<Value>>,
    stored: spec_fn(i32) -> Seq<Seq<Value>>,
    parts: int,
)
    requires
        forall|p: i32|
            #[trigger] stored(p) == fields(p).map_values(|row: Seq<Value>| stored_lineitem(row)),
    ensures
        joined_partitions(stored, parts) == joined_partitions(fields, parts).map_values(
            |row: Seq<Value>| stored_lineitem(row),
        ),
    decreases parts,
{
    if parts > 0 {
        stored_lineitems_are_joined(fields, stored, parts - 1);
    }
    assert(joined_partitions(stored, parts) =~= joined_partitions(fields, parts).map_values(
        |row: Seq<Value>| stored_lineitem(row),
    ));
}

/// Generates one partition of the lineitem table and sends it, batch by batch.
pub fn produce_lineitem(
    scale: &str,
    part: i32,
    part_count: i32,
    tx: &mut JobSender,
) -> (end: PumpEnd)
    requires
        is_scale_factor(scale@),
        scale_supported(TpchTable::Lineitem, scale@),
        1 <= part <= part_count,
        old(tx).table() == TpchTable::Lineitem,
    ensures
        final(tx).table() == old(tx).table(),
        old(tx).conforming() ==> final(tx).conforming(),
        produced(
            TpchTable::Lineitem,
            scale@,
            part,
            part_count,
            old(tx).accepted(),
            final(tx).accepted(),
            end,
        ),
        stopped_at_refusal(
            *old(tx),
            *final(tx),
            table_rows(TpchTable::Lineitem, scale@, part, part_count),
            end,
        ),
        quantities_are_scaled(scale@, part, part_count),
{
    let mut rows = open_lineitem(scale, part, part_count);
    assert(pending_stored(rows) =~= table_rows(TpchTable::Lineitem, scale@, part, part_count));
    proof {
        let fields = |p: i32| lineitem_rows(scale@, p, part_count);
        let stored = |p: i32| table_rows(TpchTable::Lineitem, scale@, p, part_count);
        stored_lineitems_are_joined(fields, stored, part - 1);
        let earlier = joined_partitions(fields, part - 1);
        let each = |row: Seq<Value>| stored_lineitem(row);
        assert((earlier + rows.pending()).map_values(each) =~= joined_partitions(stored, part - 1)
            + pending_stored(rows));
    }
    pump(&mut rows, tx)
}

/// Generates one partition of `table` and sends it, batch by batch.
pub fn produce(
    table: TpchTable,
    scale: &str,
    part: i32,
    part_count: i32,
    tx: &mut JobSender,
) -> (end: PumpEnd)
    requires
        is_scale_factor(scale@),
        scale_supported(table, scale@),
        table.partitionable() ==> 1 <= part <= part_count,
        old(tx).table() == table,
    ensures
        final(tx).table() == old(tx).table(),
        old(tx).conforming() ==> final(tx).conforming(),
        produced(
            table,
            scale@,
            part,
            part_count,
            old(tx).accepted(),
            final(tx).accepted(),
            end,
        ),
        stopped_at_refusal(
            *old(tx),
            *final(tx),
            table_rows(table, scale@, part, part_count),
            end,
        ),
{
    match table {
        TpchTable::Nation => produce_nation(scale, part, part_count, tx),
        TpchTable::Region => produce_region(scale, part, part_count, tx),
        TpchTable::Part => produce_part(scale, part, part_count, tx),
        TpchTable::Supplier => produce_supplier(scale, part, part_count, tx),
        TpchTable::Partsupp => produce_partsupp(scale, part, part_count, tx),
        TpchTable::Customer => produce_customer(scale, part, part_count, tx),
        TpchTable::Orders => produce_orders(scale, part, part_count, tx),
        TpchTable::Lineitem => produce_lineitem(scale, part, part_count, tx),
    }
}

/// Generates one partition of `table` and sends it, where the generators can compute the table at
/// this scale factor. Where they cannot, nothing is handed to the channel.
pub fn produce_checked(
    table: TpchTable,
    scale: &str,
    part: i32,
    part_count: i32,
    tx: &mut JobSender,
) -> (outcome: Result<PumpEnd, ProduceError>)
    requires
        table.partitionable() ==> 1 <= part <= part_count,
        old(tx).table() == table,
    ensures
        final(tx).table() == old(tx).table(),
        old(tx).conforming() ==> final(tx).conforming(),
        match outcome {
            Ok(end) => {
                &&& is_scale_factor(scale@)
                &&& scale_supported(table, scale@)
                &&& produced(
                    table,
                    scale@,
                    part,
                    part_count,
                    old(tx).accepted(),
                    final(tx).accepted(),
                    end,
                )
                &&& stopped_at_refusal(
                    *old(tx),
                    *final(tx),
                    table_rows(table, scale@, part, part_count),
                    end,
                )
            },
            Err(error) => {
                &&& match error {
                    ProduceError::InvalidScale => !is_scale_factor(scale@),
                    ProduceError::UnsupportedScale => is_scale_factor(scale@) && !scale_supported(
                        table,
                        scale@,
                    ),
                }
                &&& *final(tx) == *old(tx)
            },
        },
{
    match check_scale(table, scale) {
        Ok(_) => Ok(produce(table, scale, part, part_count, tx)),
        Err(error) => Err(error),
    }
}

/// A partition that was produced to the end has sent exactly its rows: every one of them once,
/// in order, in chunks of which none is empty or larger than a batch.
pub proof fn exhausted_partition_is_complete(
    table: TpchTable,
    scale: Seq<char>,
    part: i32,
    part_count: i32,
    before: Seq<Seq<Seq<Value>>>,
    after: Seq<Seq<Seq<Value>>>,
)
    requires
        produced(table, scale, part, part_count, before, after, PumpEnd::Exhausted),
    ensures
        before.is_prefix_of(after),
        after.skip(before.len() as int).flatten() == table_rows(table, scale, part, part_count),
        forall|i: int|
            before.len() <= i < after.len() ==> 1 <= (#[trigger] after[i]).len() <= BATCH_SIZE,
{
    let rows = table_rows(table, scale, part, part_count);
    batches_hold_all_rows(rows);
    assert(after.skip(before.len() as int) =~= batches(rows));
    assert forall|i: int| before.len() <= i < after.len() implies 1 <= (#[trigger] after[i]).len()
        <= BATCH_SIZE by {
        assert(after[i] == batches(rows)[i - before.len()]);
    }
}

/// A partition is the same whoever produces it, `produce` or the producer of the table: two runs
/// to the end send the same chunks, and what an abandoned run has sent is the beginning of them.
pub proof fn production_is_repeatable(
    table: TpchTable,
    scale: Seq<char>,
    part: i32,
    part_count: i32,
    before: Seq<Seq<Seq<Value>>>,
    complete: Seq<Seq<Seq<Value>>>,
    other: Seq<Seq<Seq<Value>>>,
    end: PumpEnd,
)
    requires
        produced(table, scale, part, part_count, before, complete, PumpEnd::Exhausted),
        produced(table, scale, part, part_count, before, other, end),
    ensures
        other.is_prefix_of(complete),
        end is Exhausted ==> other == complete,
{
}

/// Every chunk that a producer has sent, whether or not it came to the end, has between one row
/// and a full batch of them, and every row has the columns of the table, stored as their types
/// demand.
pub proof fn sent_chunks_fill_the_schema(
    table: TpchTable,
    scale: Seq<char>,
    part: i32,
    part_count: i32,
    before: JobSender,
    after: JobSender,
    end: PumpEnd,
)
    requires
        after.table() == table,
        after.conforming(),
        produced(table, scale, part, part_count, before.accepted(), after.accepted(), end),
    ensures
        before.accepted().is_prefix_of(after.accepted()),
        forall|i: int|
            before.accepted().len() <= i < after.accepted().len() ==> 1 <= (
            #[trigger] after.accepted()[i]).len() <= BATCH_SIZE,
        forall|i: int, r: int|
            0 <= i < after.accepted().len() && 0 <= r < after.accepted()[i].len() ==> row_conforms(
                #[trigger] after.accepted()[i][r],
                table.columns(),
            ),
{
    let all = batches(table_rows(table, scale, part, part_count));
    batches_hold_all_rows(table_rows(table, scale, part, part_count));
    assert forall|i: int|
        before.accepted().len() <= i < after.accepted().len() implies 1 <= (
    #[trigger] after.accepted()[i]).len() <= BATCH_SIZE by {
        assert(after.accepted()[i] == all[i - before.accepted().len()]);
    }
}

/// A receiver that goes away has got the first rows of the partition, none of them twice and
/// none out of order.
pub proof fn abandoned_partition_is_a_prefix(
    table: TpchTable,
    scale: Seq<char>,
    part: i32,
    part_count: i32,
    before: Seq<Seq<Seq<Value>>>,
    after: Seq<Seq<Seq<Value>>>,
)
    requires
        produced(table, scale, part, part_count, before, after, PumpEnd::Disconnected),
    ensures
        before.is_prefix_of(after),
        after.skip(before.len() as int).flatten().is_prefix_of(
            table_rows(table, scale, part, part_count),
        ),
{
    let rows = table_rows(table, scale, part, part_count);
    batches_hold_all_rows(rows);
    let n = choose|n: int|
        0 <= n < batches(rows).len() && after == before + #[trigger] batches(rows).take(n);
    assert(after.skip(before.len() as int) =~= batches(rows).take(n));
    assert(batches(rows) =~= batches(rows).take(n) + batches(rows).skip(n));
    vstd::seq_lib::lemma_flatten_concat(batches(rows).take(n), batches(rows).skip(n));
}

/// What goes out of a table is what its own generator made for that partition, row by row and
/// cell by cell; only the quantity of a line item, a whole number, goes out as hundredths.
pub proof fn rows_go_out_as_generated(scale: Seq<char>, part: i32, part_count: i32)
    ensures
        table_rows(TpchTable::Nation, scale, part, part_count) == nation_rows(
            scale,
            part,
            part_count,
        ),
        table_rows(TpchTable::Region, scale, part, part_count) == region_rows(
            scale,
            part,
            part_count,
        ),
        table_rows(TpchTable::Part, scale, part, part_count) == part_rows(scale, part, part_count),
        table_rows(TpchTable::Supplier, scale, part, part_count) == supplier_rows(
            scale,
            part,
            part_count,
        ),
        table_rows(TpchTable::Partsupp, scale, part, part_count) == partsupp_rows(
            scale,
            part,
            part_count,
        ),
        table_rows(TpchTable::Customer, scale, part, part_count) == customer_rows(
            scale,
            part,
            part_count,
        ),
        table_rows(TpchTable::Orders, scale, part, part_count) == orders_rows(
            scale,
            part,
            part_count,
        ),
        ({
            let made = lineitem_rows(scale, part, part_count);
            let stored = table_rows(TpchTable::Lineitem, scale, part, part_count);
            &&& stored.len() == made.len()
            &&& forall|i: int|
                0 <= i < made.len() && 4 < made[i].len() ==> (#[trigger] stored[i]).len()
                    == made[i].len()
            &&& forall|i: int, c: int|
                0 <= i < made.len() && 4 < made[i].len() && 0 <= c < made[i].len() && c != 4
                    ==> #[trigger] stored[i][c] == made[i][c]
            &&& forall|i: int|
                0 <= i < made.len() && 4 < made[i].len() ==> match (
                    made[i][4],
                    (#[trigger] stored[i])[4],
                ) {
                    (Value::Int64(quantity), Value::Int64(amount)) => i64::MIN <= quantity * 100
                        <= i64::MAX ==> amount == quantity * 100,
                    (Value::Int64(_), _) => false,
                    (other, same) => same == other,
                }
        }),
{
}

/// A scale factor is refused only where the arithmetic of the generators does not hold it: where
/// the steps of a random stream, of which each entry takes a fixed number, do not fit 64 bits;
/// from scale factor 30000 on, that is from six thousand million parts on, for orders and their
/// items, and at the one number of keys that cannot be drawn from; and where rows would have to
/// name a supplier and there is none.
pub proof fn scales_are_refused_only_where_arithmetic_fails(scale: Seq<char>)
    ensures
        scale_supported(TpchTable::Nation, scale),
        scale_supported(TpchTable::Region, scale),
        scale_supported(TpchTable::Part, scale) <==> -i64::MAX <= 92 * parts_at(scale) <= i64::MAX,
        scale_supported(TpchTable::Supplier, scale) <==> -i64::MAX <= 9 * suppliers_at(scale)
            <= i64::MAX,
        scale_supported(TpchTable::Customer, scale) <==> -i64::MAX <= 9 * customers_at(scale)
            <= i64::MAX,
        scale_supported(TpchTable::Partsupp, scale) <==> -i64::MAX <= 8 * parts_at(scale)
            <= i64::MAX && (parts_at(scale) > 0 ==> suppliers_at(scale) != 0),
        scale_supported(TpchTable::Orders, scale) <==> -i64::MAX <= 7 * orders_at(scale)
            <= i64::MAX && parts_at(scale) < 6_000_000_000 && parts_at(scale) != 0x8000_0000
            && customers_at(scale) != 0x8000_0000,
        scale_supported(TpchTable::Lineitem, scale) <==> -i64::MAX <= 14 * orders_at(scale)
            <= i64::MAX && parts_at(scale) < 6_000_000_000 && parts_at(scale) != 0x8000_0000 && (
        orders_at(scale) > 0 ==> suppliers_at(scale) != 0),
{
}

/// Where the receiver went away, exactly one more chunk was handed to the channel, and it holds
/// the rows that come right behind those sent.
pub proof fn refused_chunk_comes_next(
    table: TpchTable,
    scale: Seq<char>,
    part: i32,
    part_count: i32,
    before: JobSender,
    after: JobSender,
)
    requires
        produced(
            table,
            scale,
            part,
            part_count,
            before.accepted(),
            after.accepted(),
            PumpEnd::Disconnected,
        ),
        stopped_at_refusal(
            before,
            after,
            table_rows(table, scale, part, part_count),
            PumpEnd::Disconnected,
        ),
    ensures
        after.refused().len() == before.refused().len() + 1,
        before.refused().is_prefix_of(after.refused()),
        1 <= after.refused().last().len() <= BATCH_SIZE,
        (after.accepted().skip(before.accepted().len() as int).flatten()
            + after.refused().last()).is_prefix_of(table_rows(table, scale, part, part_count)),
{
    let rows = table_rows(table, scale, part, part_count);
    let all = batches(rows);
    batches_hold_all_rows(rows);
    let n = choose|n: int|
        0 <= n < all.len() && after.accepted() == before.accepted() + #[trigger] all.take(n);
    assert(after.accepted().skip(before.accepted().len() as int) =~= all.take(n));
    assert(after.refused().last() == all[n]);
    assert(all.take(n + 1) =~= all.take(n).push(all[n]));
    all.take(n).lemma_flatten_push(all[n]);
    assert(all =~= all.take(n + 1) + all.skip(n + 1));
    vstd::seq_lib::lemma_flatten_concat(all.take(n + 1), all.skip(n + 1));
}

/// Where nothing was refused, nothing is added to what was refused.
pub proof fn exhausted_partition_refuses_nothing(
    before: JobSender,
    after: JobSender,
    rows: Seq<Seq<Value>>,
)
    requires
        stopped_at_refusal(before, after, rows, PumpEnd::Exhausted),
    ensures
        after.refused() == before.refused(),
{
}

} // verus!
