//! The row generators of the `tpchgen` crate, with what is trusted of them.
//!
//! A scale factor is passed as the text of a decimal number and read where a generator is made.
//! Decimals leave a generator through `TPCHDecimal::into_inner` (the value times 100), dates
//! through `TPCHDate::to_unix_epoch` (days since 1970-01-01), and names, addresses, phone
//! numbers and the like through their `Display`.

use crate::chunk::Value;
use crate::rows::{
    quantity_occurs, CustomerRow, LineItemRow, NationRow, OrderRow, PartRow, PartSuppRow,
    RegionRow, SupplierRow,
};
use tpchgen::generators::{
    CustomerGenerator, CustomerGeneratorIterator, LineItemGenerator, LineItemGeneratorIterator,
    NationGenerator, NationGeneratorIterator, OrderGenerator, OrderGeneratorIterator,
    PartGenerator, PartGeneratorIterator, PartSuppGenerator, PartSuppGeneratorIterator,
    RegionGenerator, RegionGeneratorIterator, SupplierGenerator, SupplierGeneratorIterator,
};
use vstd::prelude::*;

verus! {

/// Whether `str::parse` reads `text` as a floating-point number.
pub uninterp spec fn is_scale_factor(text: Seq<char>) -> bool;

/// The number of parts at scale factor `scale`: `PartGenerator::calculate_row_count` for the
/// only partition of one.
pub uninterp spec fn parts_at(scale: Seq<char>) -> int;

/// The number of suppliers at scale factor `scale`: `SupplierGenerator::calculate_row_count`
/// for the only partition of one.
pub uninterp spec fn suppliers_at(scale: Seq<char>) -> int;

/// The number of customers at scale factor `scale`: `CustomerGenerator::calculate_row_count`
/// for the only partition of one.
pub uninterp spec fn customers_at(scale: Seq<char>) -> int;

/// The number of orders at scale factor `scale`: `OrderGenerator::calculate_row_count` for the
/// only partition of one.
pub uninterp spec fn orders_at(scale: Seq<char>) -> int;

/// The part of `total` items that falls to partition `part` of `part_count`: an equal share,
/// and for the last partition also what is left over.
pub open spec fn share(total: int, part: int, part_count: int) -> int {
    if total <= 0 {
        0
    } else if part == part_count {
        total / part_count + total % part_count
    } else {
        total / part_count
    }
}

/// The first `parts` partitions, one behind the other; `rows` gives each partition by its number.
pub open spec fn joined_partitions(rows: spec_fn(i32) -> Seq<Seq<Value>>, parts: int) -> Seq<
    Seq<Value>,
>
    decreases parts,
{
    if parts <= 0 {
        seq![]
    } else {
        joined_partitions(rows, parts - 1) + rows(parts as i32)
    }
}

/// In `whole`, `rows` come right behind `earlier`, which stand at its top; if they are the `last`
/// rows, nothing comes after them.
pub open spec fn is_next_piece(
    whole: Seq<Seq<Value>>,
    earlier: Seq<Seq<Value>>,
    rows: Seq<Seq<Value>>,
    last: bool,
) -> bool {
    &&& (earlier + rows).is_prefix_of(whole)
    &&& last ==> earlier + rows == whole
}

// A generator keeps count of the steps of its random streams in 64 bits. These are the largest
// tables of which every row can be reached, and, for a negative scale factor, the largest counts
// below zero: `i64::MAX` divided by the most steps that a stream takes for one entry.

/// A part takes 92 steps, one for each colour that its name can be made of.
pub const MAX_PARTS: i64 = 100_254_043_878_856_258;

/// A supplier takes 9 steps, for its address.
pub const MAX_SUPPLIERS: i64 = 1_024_819_115_206_086_200;

/// A customer takes 9 steps, for its address.
pub const MAX_CUSTOMERS: i64 = 1_024_819_115_206_086_200;

/// A part and its suppliers take 8 steps, two for each of four comments.
pub const MAX_SUPPLIED_PARTS: i64 = 1_152_921_504_606_846_975;

/// An order takes 7 steps, one for each line item that it can have.
pub const MAX_ORDERS: i64 = 1_317_624_576_693_539_401;

/// The line items of an order take 14 steps, two for each of seven comments.
pub const MAX_ITEMIZED_ORDERS: i64 = 658_812_288_346_769_700;

/// Up to this many parts, that is below scale factor 30000, orders and line items draw their
/// random keys with 32-bit arithmetic. The 64-bit arithmetic beyond overflows.
pub const MAX_PARTS_OF_ORDERS: i64 = 5_999_999_999;

/// The one number of keys below that bound from which none can be drawn: cut to 32 bits it is the
/// smallest integer, and one less than it overflows.
pub const UNDRAWABLE: i64 = 2_147_483_648;

/// `PartGenerator::calculate_row_count` for the only partition of one: the number of
/// parts at scale factor `scale`, or nothing where `scale` is no number.
#[verifier::external_body]
pub(crate) fn count_parts(scale: &str) -> (count: Option<i64>)
    ensures
        match count {
            Some(n) => is_scale_factor(scale@) && n == parts_at(scale@),
            None => !is_scale_factor(scale@),
        },
{
    match scale.parse() {
        Ok(factor) => Some(PartGenerator::calculate_row_count(factor, 1, 1)),
        Err(_) => None,
    }
}

/// `SupplierGenerator::calculate_row_count` for the only partition of one: the number of
/// suppliers at scale factor `scale`, or nothing where `scale` is no number.
#[verifier::external_body]
pub(crate) fn count_suppliers(scale: &str) -> (count: Option<i64>)
    ensures
        match count {
            Some(n) => is_scale_factor(scale@) && n == suppliers_at(scale@),
            None => !is_scale_factor(scale@),
        },
{
    match scale.parse() {
        Ok(factor) => Some(SupplierGenerator::calculate_row_count(factor, 1, 1)),
        Err(_) => None,
    }
}

/// `CustomerGenerator::calculate_row_count` for the only partition of one: the number of
/// customers at scale factor `scale`, or nothing where `scale` is no number.
#[verifier::external_body]
pub(crate) fn count_customers(scale: &str) -> (count: Option<i64>)
    ensures
        match count {
            Some(n) => is_scale_factor(scale@) && n == customers_at(scale@),
            None => !is_scale_factor(scale@),
        },
{
    match scale.parse() {
        Ok(factor) => Some(CustomerGenerator::calculate_row_count(factor, 1, 1)),
        Err(_) => None,
    }
}

/// `OrderGenerator::calculate_row_count` for the only partition of one: the number of
/// orders at scale factor `scale`, or nothing where `scale` is no number.
#[verifier::external_body]
pub(crate) fn count_orders(scale: &str) -> (count: Option<i64>)
    ensures
        match count {
            Some(n) => is_scale_factor(scale@) && n == orders_at(scale@),
            None => !is_scale_factor(scale@),
        },
{
    match scale.parse() {
        Ok(factor) => Some(OrderGenerator::calculate_row_count(factor, 1, 1)),
        Err(_) => None,
    }
}

// --- nation ----------------------------------------------------------------------------------

/// The iterator of `NationGenerator`.
#[verifier::external_type_specification]
#[verifier::external_body]
pub struct ExNationGeneratorIterator<'a>(NationGeneratorIterator<'a>);

/// The rows that the iterator has still to give, each as the list of its fields.
pub uninterp spec fn nation_pending(source: NationGeneratorIterator<'static>) -> Seq<Seq<Value>>;

/// The rows that `NationGenerator` makes for partition `part` of `part_count` at scale factor
/// `scale`.
pub uninterp spec fn nation_rows(scale: Seq<char>, part: i32, part_count: i32) -> Seq<Seq<Value>>;

/// `NationGenerator::new` with the scale factor that `scale` spells, then `iter`: the rows of
/// partition `part` of `part_count`.
/// The generator ignores its arguments: every partition at every scale factor has the same rows.
#[verifier::external_body]
pub(crate) fn open_nation(scale: &str, part: i32, part_count: i32) -> (source:
    NationGeneratorIterator<'static>)
    requires
        is_scale_factor(scale@),
    ensures
        nation_pending(source) == nation_rows(scale@, part, part_count),
        forall|s: Seq<char>, p: i32, n: i32|
            #[trigger] nation_rows(s, p, n) == nation_pending(source),
{
    NationGenerator::new(scale.parse().unwrap(), part, part_count).iter()
}

/// `Iterator::next` of the `NationGenerator` iterator: the first of the rows still to come,
/// which then is no longer to come, or nothing when there is none.
#[verifier::external_body]
pub(crate) fn next_nation(source: &mut NationGeneratorIterator<'static>) -> (row: Option<NationRow>)
    ensures
        match row {
            Some(r) => {
                &&& nation_pending(*old(source)).len() > 0
                &&& r@ == nation_pending(*old(source))[0]
                &&& nation_pending(*final(source)) == nation_pending(*old(source)).drop_first()
            },
            None => {
                &&& nation_pending(*old(source)).len() == 0
                &&& nation_pending(*final(source)) == nation_pending(*old(source))
            },
        },
{
    match source.next() {
        Some(r) => Some(NationRow {
            n_nationkey: r.n_nationkey,
            n_name: r.n_name,
            n_regionkey: r.n_regionkey,
            n_comment: r.n_comment,
        }),
        None => None,
    }
}

// --- region ----------------------------------------------------------------------------------

/// The iterator of `RegionGenerator`.
#[verifier::external_type_specification]
#[verifier::external_body]
pub struct ExRegionGeneratorIterator<'a>(RegionGeneratorIterator<'a>);

/// The rows that the iterator has still to give, each as the list of its fields.
pub uninterp spec fn region_pending(source: RegionGeneratorIterator<'static>) -> Seq<Seq<Value>>;

/// The rows that `RegionGenerator` makes for partition `part` of `part_count` at scale factor
/// `scale`.
pub uninterp spec fn region_rows(scale: Seq<char>, part: i32, part_count: i32) -> Seq<Seq<Value>>;

/// `RegionGenerator::new` with the scale factor that `scale` spells, then `iter`: the rows of
/// partition `part` of `part_count`.
/// The generator ignores its arguments: every partition at every scale factor has the same rows.
#[verifier::external_body]
pub(crate) fn open_region(scale: &str, part: i32, part_count: i32) -> (source:
    RegionGeneratorIterator<'static>)
    requires
        is_scale_factor(scale@),
    ensures
        region_pending(source) == region_rows(scale@, part, part_count),
        forall|s: Seq<char>, p: i32, n: i32|
            #[trigger] region_rows(s, p, n) == region_pending(source),
{
    RegionGenerator::new(scale.parse().unwrap(), part, part_count).iter()
}

/// `Iterator::next` of the `RegionGenerator` iterator: the first of the rows still to come,
/// which then is no longer to come, or nothing when there is none.
#[verifier::external_body]
pub(crate) fn next_region(source: &mut RegionGeneratorIterator<'static>) -> (row: Option<RegionRow>)
    ensures
        match row {
            Some(r) => {
                &&& region_pending(*old(source)).len() > 0
                &&& r@ == region_pending(*old(source))[0]
                &&& region_pending(*final(source)) == region_pending(*old(source)).drop_first()
            },
            None => {
                &&& region_pending(*old(source)).len() == 0
                &&& region_pending(*final(source)) == region_pending(*old(source))
            },
        },
{
    match source.next() {
        Some(r) => Some(RegionRow {
            r_regionkey: r.r_regionkey,
            r_name: r.r_name,
            r_comment: r.r_comment,
        }),
        None => None,
    }
}

// --- part ------------------------------------------------------------------------------------

/// The iterator of `PartGenerator`.
#[verifier::external_type_specification]
#[verifier::external_body]
pub struct ExPartGeneratorIterator<'a>(PartGeneratorIterator<'a>);

/// The rows that the iterator has still to give, each as the list of its fields.
pub uninterp spec fn part_pending(source: PartGeneratorIterator<'static>) -> Seq<Seq<Value>>;

/// The rows that `PartGenerator` makes for partition `part` of `part_count` at scale factor
/// `scale`.
pub uninterp spec fn part_rows(scale: Seq<char>, part: i32, part_count: i32) -> Seq<Seq<Value>>;

/// `PartGenerator::new` with the scale factor that `scale` spells, then `iter`: the rows of
/// partition `part` of `part_count`.
/// A partition holds its share of the parts.
/// Every random stream moves on by a fixed number of steps for a part, whatever was drawn,
/// and a partition starts its streams that many steps on for all that come before it: so the
/// partitions in order are the pieces of the table that a single partition holds.
#[verifier::external_body]
pub(crate) fn open_part(scale: &str, part: i32, part_count: i32) -> (source:
    PartGeneratorIterator<'static>)
    requires
        is_scale_factor(scale@),
        1 <= part <= part_count,
        -MAX_PARTS <= parts_at(scale@) <= MAX_PARTS,
    ensures
        part_pending(source) == part_rows(scale@, part, part_count),
        is_next_piece(
            part_rows(scale@, 1, 1),
            joined_partitions(|p: i32| part_rows(scale@, p, part_count), part - 1),
            part_pending(source),
            part == part_count,
        ),
        part_pending(source).len() == share(
            parts_at(scale@),
            part as int,
            part_count as int,
        ),
{
    PartGenerator::new(scale.parse().unwrap(), part, part_count).iter()
}

/// `Iterator::next` of the `PartGenerator` iterator: the first of the rows still to come,
/// which then is no longer to come, or nothing when there is none.
#[verifier::external_body]
pub(crate) fn next_part(source: &mut PartGeneratorIterator<'static>) -> (row: Option<PartRow>)
    ensures
        match row {
            Some(r) => {
                &&& part_pending(*old(source)).len() > 0
                &&& r@ == part_pending(*old(source))[0]
                &&& part_pending(*final(source)) == part_pending(*old(source)).drop_first()
            },
            None => {
                &&& part_pending(*old(source)).len() == 0
                &&& part_pending(*final(source)) == part_pending(*old(source))
            },
        },
{
    match source.next() {
        Some(r) => Some(PartRow {
            p_partkey: r.p_partkey,
            p_name: r.p_name.to_string(),
            p_mfgr: r.p_mfgr.to_string(),
            p_brand: r.p_brand.to_string(),
            p_type: r.p_type,
            p_size: r.p_size,
            p_container: r.p_container,
            p_retailprice: r.p_retailprice.into_inner(),
            p_comment: r.p_comment,
        }),
        None => None,
    }
}

// --- supplier --------------------------------------------------------------------------------

/// The iterator of `SupplierGenerator`.
#[verifier::external_type_specification]
#[verifier::external_body]
pub struct ExSupplierGeneratorIterator<'a>(SupplierGeneratorIterator<'a>);

/// The rows that the iterator has still to give, each as the list of its fields.
pub uninterp spec fn supplier_pending(source: SupplierGeneratorIterator<'static>) -> Seq<
    Seq<Value>,
>;

/// The rows that `SupplierGenerator` makes for partition `part` of `part_count` at scale factor
/// `scale`.
pub uninterp spec fn supplier_rows(scale: Seq<char>, part: i32, part_count: i32) -> Seq<Seq<Value>>;

/// `SupplierGenerator::new` with the scale factor that `scale` spells, then `iter`: the rows of
/// partition `part` of `part_count`.
/// A partition holds its share of the suppliers.
/// Every random stream moves on by a fixed number of steps for a supplier, whatever was drawn,
/// and a partition starts its streams that many steps on for all that come before it: so the
/// partitions in order are the pieces of the table that a single partition holds.
#[verifier::external_body]
pub(crate) fn open_supplier(scale: &str, part: i32, part_count: i32) -> (source:
    SupplierGeneratorIterator<'static>)
    requires
        is_scale_factor(scale@),
        1 <= part <= part_count,
        -MAX_SUPPLIERS <= suppliers_at(scale@) <= MAX_SUPPLIERS,
    ensures
        supplier_pending(source) == supplier_rows(scale@, part, part_count),
        is_next_piece(
            supplier_rows(scale@, 1, 1),
            joined_partitions(|p: i32| supplier_rows(scale@, p, part_count), part - 1),
            supplier_pending(source),
            part == part_count,
        ),
        supplier_pending(source).len() == share(
            suppliers_at(scale@),
            part as int,
            part_count as int,
        ),
{
    SupplierGenerator::new(scale.parse().unwrap(), part, part_count).iter()
}

/// `Iterator::next` of the `SupplierGenerator` iterator: the first of the rows still to come,
/// which then is no longer to come, or nothing when there is none.
#[verifier::external_body]
pub(crate) fn next_supplier(source: &mut SupplierGeneratorIterator<'static>) -> (row: Option<
    SupplierRow,
>)
    ensures
        match row {
            Some(r) => {
                &&& supplier_pending(*old(source)).len() > 0
                &&& r@ == supplier_pending(*old(source))[0]
                &&& supplier_pending(*final(source)) == supplier_pending(*old(source)).drop_first()
            },
            None => {
                &&& supplier_pending(*old(source)).len() == 0
                &&& supplier_pending(*final(source)) == supplier_pending(*old(source))
            },
        },
{
    match source.next() {
        Some(r) => Some(SupplierRow {
            s_suppkey: r.s_suppkey,
            s_name: r.s_name.to_string(),
            s_address: r.s_address.to_string(),
            s_nationkey: r.s_nationkey,
            s_phone: r.s_phone.to_string(),
            s_acctbal: r.s_acctbal.into_inner(),
            s_comment: r.s_comment,
        }),
        None => None,
    }
}

// --- partsupp --------------------------------------------------------------------------------

/// The iterator of `PartSuppGenerator`.
#[verifier::external_type_specification]
#[verifier::external_body]
pub struct ExPartSuppGeneratorIterator<'a>(PartSuppGeneratorIterator<'a>);

/// The rows that the iterator has still to give, each as the list of its fields.
pub uninterp spec fn partsupp_pending(source: PartSuppGeneratorIterator<'static>) -> Seq<
    Seq<Value>,
>;

/// The rows that `PartSuppGenerator` makes for partition `part` of `part_count` at scale factor
/// `scale`.
pub uninterp spec fn partsupp_rows(scale: Seq<char>, part: i32, part_count: i32) -> Seq<Seq<Value>>;

/// The number of suppliers among which the iterator picks.
pub uninterp spec fn partsupp_suppliers(source: PartSuppGeneratorIterator<'static>) -> int;

/// `PartSuppGenerator::new` with the scale factor that `scale` spells, then `iter`: the rows of
/// partition `part` of `part_count`.
/// A partition holds four rows for each part of its share of the parts.
/// Every random stream moves on by a fixed number of steps for a part, whatever was drawn,
/// and a partition starts its streams that many steps on for all that come before it: so the
/// partitions in order are the pieces of the table that a single partition holds.
#[verifier::external_body]
pub(crate) fn open_partsupp(scale: &str, part: i32, part_count: i32) -> (source:
    PartSuppGeneratorIterator<'static>)
    requires
        is_scale_factor(scale@),
        1 <= part <= part_count,
        -MAX_SUPPLIED_PARTS <= parts_at(scale@) <= MAX_SUPPLIED_PARTS,
        suppliers_at(scale@) != 0 || parts_at(scale@) <= 0,
    ensures
        partsupp_pending(source) == partsupp_rows(scale@, part, part_count),
        is_next_piece(
            partsupp_rows(scale@, 1, 1),
            joined_partitions(|p: i32| partsupp_rows(scale@, p, part_count), part - 1),
            partsupp_pending(source),
            part == part_count,
        ),
        partsupp_suppliers(source) == suppliers_at(scale@),
        partsupp_pending(source).len() == 4 * share(
            parts_at(scale@),
            part as int,
            part_count as int,
        ),
{
    PartSuppGenerator::new(scale.parse().unwrap(), part, part_count).iter()
}

/// `Iterator::next` of the `PartSuppGenerator` iterator: the first of the rows still to come,
/// which then is no longer to come, or nothing when there is none.
/// The generator divides by the number of suppliers for every row.
#[verifier::external_body]
pub(crate) fn next_partsupp(source: &mut PartSuppGeneratorIterator<'static>) -> (row: Option<
    PartSuppRow,
>)
    requires
        partsupp_suppliers(*old(source)) != 0 || partsupp_pending(*old(source)).len() == 0,
    ensures
        match row {
            Some(r) => {
                &&& partsupp_pending(*old(source)).len() > 0
                &&& r@ == partsupp_pending(*old(source))[0]
                &&& partsupp_pending(*final(source)) == partsupp_pending(*old(source)).drop_first()
            },
            None => {
                &&& partsupp_pending(*old(source)).len() == 0
                &&& partsupp_pending(*final(source)) == partsupp_pending(*old(source))
            },
        },
        partsupp_suppliers(*final(source)) == partsupp_suppliers(*old(source)),
{
    match source.next() {
        Some(r) => Some(PartSuppRow {
            ps_partkey: r.ps_partkey,
            ps_suppkey: r.ps_suppkey,
            ps_availqty: r.ps_availqty,
            ps_supplycost: r.ps_supplycost.into_inner(),
            ps_comment: r.ps_comment,
        }),
        None => None,
    }
}

// --- customer --------------------------------------------------------------------------------

/// The iterator of `CustomerGenerator`.
#[verifier::external_type_specification]
#[verifier::external_body]
pub struct ExCustomerGeneratorIterator<'a>(CustomerGeneratorIterator<'a>);

/// The rows that the iterator has still to give, each as the list of its fields.
pub uninterp spec fn customer_pending(source: CustomerGeneratorIterator<'static>) -> Seq<
    Seq<Value>,
>;

/// The rows that `CustomerGenerator` makes for partition `part` of `part_count` at scale factor
/// `scale`.
pub uninterp spec fn customer_rows(scale: Seq<char>, part: i32, part_count: i32) -> Seq<Seq<Value>>;

/// `CustomerGenerator::new` with the scale factor that `scale` spells, then `iter`: the rows of
/// partition `part` of `part_count`.
/// A partition holds its share of the customers.
/// Every random stream moves on by a fixed number of steps for a customer, whatever was drawn,
/// and a partition starts its streams that many steps on for all that come before it: so the
/// partitions in order are the pieces of the table that a single partition holds.
#[verifier::external_body]
pub(crate) fn open_customer(scale: &str, part: i32, part_count: i32) -> (source:
    CustomerGeneratorIterator<'static>)
    requires
        is_scale_factor(scale@),
        1 <= part <= part_count,
        -MAX_CUSTOMERS <= customers_at(scale@) <= MAX_CUSTOMERS,
    ensures
        customer_pending(source) == customer_rows(scale@, part, part_count),
        is_next_piece(
            customer_rows(scale@, 1, 1),
            joined_partitions(|p: i32| customer_rows(scale@, p, part_count), part - 1),
            customer_pending(source),
            part == part_count,
        ),
        customer_pending(source).len() == share(
            customers_at(scale@),
            part as int,
            part_count as int,
        ),
{
    CustomerGenerator::new(scale.parse().unwrap(), part, part_count).iter()
}

/// `Iterator::next` of the `CustomerGenerator` iterator: the first of the rows still to come,
/// which then is no longer to come, or nothing when there is none.
#[verifier::external_body]
pub(crate) fn next_customer(source: &mut CustomerGeneratorIterator<'static>) -> (row: Option<
    CustomerRow,
>)
    ensures
        match row {
            Some(r) => {
                &&& customer_pending(*old(source)).len() > 0
                &&& r@ == customer_pending(*old(source))[0]
                &&& customer_pending(*final(source)) == customer_pending(*old(source)).drop_first()
            },
            None => {
                &&& customer_pending(*old(source)).len() == 0
                &&& customer_pending(*final(source)) == customer_pending(*old(source))
            },
        },
{
    match source.next() {
        Some(r) => Some(CustomerRow {
            c_custkey: r.c_custkey,
            c_name: r.c_name.to_string(),
            c_address: r.c_address.to_string(),
            c_nationkey: r.c_nationkey,
            c_phone: r.c_phone.to_string(),
            c_acctbal: r.c_acctbal.into_inner(),
            c_mktsegment: r.c_mktsegment,
            c_comment: r.c_comment,
        }),
        None => None,
    }
}

// --- orders ----------------------------------------------------------------------------------

/// The iterator of `OrderGenerator`.
#[verifier::external_type_specification]
#[verifier::external_body]
pub struct ExOrderGeneratorIterator<'a>(OrderGeneratorIterator<'a>);

/// The rows that the iterator has still to give, each as the list of its fields.
pub uninterp spec fn orders_pending(source: OrderGeneratorIterator<'static>) -> Seq<Seq<Value>>;

/// The rows that `OrderGenerator` makes for partition `part` of `part_count` at scale factor
/// `scale`.
pub uninterp spec fn orders_rows(scale: Seq<char>, part: i32, part_count: i32) -> Seq<Seq<Value>>;

/// The number of parts among which the iterator picks.
pub uninterp spec fn orders_parts(source: OrderGeneratorIterator<'static>) -> int;

/// The number of customers among which the iterator picks.
pub uninterp spec fn orders_customers(source: OrderGeneratorIterator<'static>) -> int;

/// `OrderGenerator::new` with the scale factor that `scale` spells, then `iter`: the rows of
/// partition `part` of `part_count`.
/// A partition holds its share of the orders.
/// Every random stream moves on by a fixed number of steps for an order, whatever was drawn,
/// and a partition starts its streams that many steps on for all that come before it: so the
/// partitions in order are the pieces of the table that a single partition holds.
#[verifier::external_body]
pub(crate) fn open_orders(scale: &str, part: i32, part_count: i32) -> (source:
    OrderGeneratorIterator<'static>)
    requires
        is_scale_factor(scale@),
        1 <= part <= part_count,
        -MAX_ORDERS <= orders_at(scale@) <= MAX_ORDERS,
        parts_at(scale@) <= MAX_PARTS_OF_ORDERS,
        parts_at(scale@) != UNDRAWABLE,
        customers_at(scale@) != UNDRAWABLE,
    ensures
        orders_pending(source) == orders_rows(scale@, part, part_count),
        is_next_piece(
            orders_rows(scale@, 1, 1),
            joined_partitions(|p: i32| orders_rows(scale@, p, part_count), part - 1),
            orders_pending(source),
            part == part_count,
        ),
        orders_parts(source) == parts_at(scale@),
        orders_customers(source) == customers_at(scale@),
        orders_pending(source).len() == share(
            orders_at(scale@),
            part as int,
            part_count as int,
        ),
{
    OrderGenerator::new(scale.parse().unwrap(), part, part_count).iter()
}

/// `Iterator::next` of the `OrderGenerator` iterator: the first of the rows still to come,
/// which then is no longer to come, or nothing when there is none.
/// A part and a customer are drawn at random for every row.
#[verifier::external_body]
pub(crate) fn next_orders(source: &mut OrderGeneratorIterator<'static>) -> (row: Option<OrderRow>)
    requires
        orders_parts(*old(source)) <= MAX_PARTS_OF_ORDERS,
        orders_parts(*old(source)) != UNDRAWABLE,
        orders_customers(*old(source)) != UNDRAWABLE,
    ensures
        match row {
            Some(r) => {
                &&& orders_pending(*old(source)).len() > 0
                &&& r@ == orders_pending(*old(source))[0]
                &&& orders_pending(*final(source)) == orders_pending(*old(source)).drop_first()
            },
            None => {
                &&& orders_pending(*old(source)).len() == 0
                &&& orders_pending(*final(source)) == orders_pending(*old(source))
            },
        },
        orders_parts(*final(source)) == orders_parts(*old(source)),
        orders_customers(*final(source)) == orders_customers(*old(source)),
{
    match source.next() {
        Some(r) => Some(OrderRow {
            o_orderkey: r.o_orderkey,
            o_custkey: r.o_custkey,
            o_orderstatus: r.o_orderstatus.to_string(),
            o_totalprice: r.o_totalprice.into_inner(),
            o_orderdate: r.o_orderdate.to_unix_epoch(),
            o_orderpriority: r.o_orderpriority,
            o_clerk: r.o_clerk.to_string(),
            o_shippriority: r.o_shippriority,
            o_comment: r.o_comment,
        }),
        None => None,
    }
}

// --- lineitem --------------------------------------------------------------------------------

/// The iterator of `LineItemGenerator`.
#[verifier::external_type_specification]
#[verifier::external_body]
pub struct ExLineItemGeneratorIterator<'a>(LineItemGeneratorIterator<'a>);

/// The rows that the iterator has still to give, each as the list of its fields.
pub uninterp spec fn lineitem_pending(source: LineItemGeneratorIterator<'static>) -> Seq<
    Seq<Value>,
>;

/// The rows that `LineItemGenerator` makes for partition `part` of `part_count` at scale factor
/// `scale`.
pub uninterp spec fn lineitem_rows(scale: Seq<char>, part: i32, part_count: i32) -> Seq<Seq<Value>>;

/// The number of parts among which the iterator picks.
pub uninterp spec fn lineitem_parts(source: LineItemGeneratorIterator<'static>) -> int;

/// The number of suppliers among which the iterator picks.
pub uninterp spec fn lineitem_suppliers(source: LineItemGeneratorIterator<'static>) -> int;

/// `LineItemGenerator::new` with the scale factor that `scale` spells, then `iter`: the rows of
/// partition `part` of `part_count`.
/// A partition holds between one and seven rows for each order of its share of the orders. The
/// quantity of every row lies between 1 and 50.
/// Every random stream moves on by a fixed number of steps for an order, whatever was drawn,
/// and a partition starts its streams that many steps on for all that come before it: so the
/// partitions in order are the pieces of the table that a single partition holds.
#[verifier::external_body]
pub(crate) fn open_lineitem(scale: &str, part: i32, part_count: i32) -> (source:
    LineItemGeneratorIterator<'static>)
    requires
        is_scale_factor(scale@),
        1 <= part <= part_count,
        -MAX_ITEMIZED_ORDERS <= orders_at(scale@) <= MAX_ITEMIZED_ORDERS,
        parts_at(scale@) <= MAX_PARTS_OF_ORDERS,
        parts_at(scale@) != UNDRAWABLE,
        suppliers_at(scale@) != 0 || orders_at(scale@) <= 0,
    ensures
        lineitem_pending(source) == lineitem_rows(scale@, part, part_count),
        is_next_piece(
            lineitem_rows(scale@, 1, 1),
            joined_partitions(|p: i32| lineitem_rows(scale@, p, part_count), part - 1),
            lineitem_pending(source),
            part == part_count,
        ),
        forall|i: int|
            0 <= i < lineitem_pending(source).len() ==> quantity_occurs(
                #[trigger] lineitem_pending(source)[i],
            ),
        lineitem_parts(source) == parts_at(scale@),
        lineitem_suppliers(source) == suppliers_at(scale@),
        share(orders_at(scale@), part as int, part_count as int) <= lineitem_pending(
            source,
        ).len() <= 7 * share(orders_at(scale@), part as int, part_count as int),
{
    LineItemGenerator::new(scale.parse().unwrap(), part, part_count).iter()
}

/// `Iterator::next` of the `LineItemGenerator` iterator: the first of the rows still to come,
/// which then is no longer to come, or nothing when there is none.
/// A quantity lies between 1 and 50. For every row the generator draws a part at random and
/// divides by the number of suppliers.
#[verifier::external_body]
pub(crate) fn next_lineitem(source: &mut LineItemGeneratorIterator<'static>) -> (row: Option<
    LineItemRow,
>)
    requires
        lineitem_parts(*old(source)) <= MAX_PARTS_OF_ORDERS,
        lineitem_parts(*old(source)) != UNDRAWABLE,
        lineitem_suppliers(*old(source)) != 0 || lineitem_pending(*old(source)).len() == 0,
    ensures
        match row {
            Some(r) => {
                &&& lineitem_pending(*old(source)).len() > 0
                &&& r@ == lineitem_pending(*old(source))[0]
                &&& lineitem_pending(*final(source)) == lineitem_pending(*old(source)).drop_first()
            },
            None => {
                &&& lineitem_pending(*old(source)).len() == 0
                &&& lineitem_pending(*final(source)) == lineitem_pending(*old(source))
            },
        },
        lineitem_parts(*final(source)) == lineitem_parts(*old(source)),
        lineitem_suppliers(*final(source)) == lineitem_suppliers(*old(source)),
        row matches Some(r) ==> 1 <= r.l_quantity <= 50,
{
    match source.next() {
        Some(r) => Some(LineItemRow {
            l_orderkey: r.l_orderkey, l_partkey: r.l_partkey,
            l_suppkey: r.l_suppkey, l_linenumber: r.l_linenumber,
            l_quantity: r.l_quantity, l_extendedprice: r.l_extendedprice.into_inner(),
            l_discount: r.l_discount.into_inner(), l_tax: r.l_tax.into_inner(),
            l_returnflag: r.l_returnflag, l_linestatus: r.l_linestatus,
            l_shipdate: r.l_shipdate.to_unix_epoch(), l_commitdate: r.l_commitdate.to_unix_epoch(),
            l_receiptdate: r.l_receiptdate.to_unix_epoch(), l_shipinstruct: r.l_shipinstruct,
            l_shipmode: r.l_shipmode, l_comment: r.l_comment,
        }),
        None => None,
    }
}

} // verus!
