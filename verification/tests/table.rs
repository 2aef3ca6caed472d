use rusty_tpch::table::{all_tables, TpchTable};

const NAMES: [&str; 8] = [
    "nation", "region", "part", "supplier", "partsupp", "customer", "orders", "lineitem",
];

#[test]
fn every_table_is_found_by_its_name() {
    let tables = all_tables();
    assert_eq!(tables.len(), 8);
    for (table, name) in tables.iter().zip(NAMES) {
        assert_eq!(table.name(), name);
        assert_eq!(TpchTable::from_name(name), Some(*table));
        assert_eq!(TpchTable::from_list_entry(name), Some(*table));
    }
}

#[test]
fn lookup_by_name_ignores_ascii_case() {
    assert_eq!(TpchTable::from_name("LINEITEM"), Some(TpchTable::Lineitem));
    assert_eq!(TpchTable::from_name("PartSupp"), Some(TpchTable::Partsupp));
    assert_eq!(TpchTable::from_name("oRDERS"), Some(TpchTable::Orders));
}

#[test]
fn unknown_names_find_nothing() {
    assert_eq!(TpchTable::from_name(""), None);
    assert_eq!(TpchTable::from_name("n"), None);
    assert_eq!(TpchTable::from_name("line item"), None);
    assert_eq!(TpchTable::from_name(" part"), None);
    // The Kelvin sign is no ASCII letter.
    assert_eq!(TpchTable::from_name("\u{212a}"), None);
}

#[test]
fn list_entries_may_be_abbreviated() {
    assert_eq!(TpchTable::from_list_entry("n"), Some(TpchTable::Nation));
    assert_eq!(TpchTable::from_list_entry("r"), Some(TpchTable::Region));
    assert_eq!(TpchTable::from_list_entry("s"), Some(TpchTable::Supplier));
    assert_eq!(TpchTable::from_list_entry("P"), Some(TpchTable::Part));
    assert_eq!(TpchTable::from_list_entry("S"), Some(TpchTable::Partsupp));
    assert_eq!(TpchTable::from_list_entry("c"), Some(TpchTable::Customer));
    assert_eq!(TpchTable::from_list_entry("O"), Some(TpchTable::Orders));
    assert_eq!(TpchTable::from_list_entry("L"), Some(TpchTable::Lineitem));
}

#[test]
fn list_entries_count_capitals() {
    assert_eq!(TpchTable::from_list_entry("p"), None);
    assert_eq!(TpchTable::from_list_entry("Nation"), None);
    assert_eq!(TpchTable::from_list_entry("LINEITEM"), None);
    assert_eq!(TpchTable::from_list_entry(""), None);
}

#[test]
fn only_the_fixed_tables_are_not_partitionable() {
    for table in all_tables() {
        let fixed = table == TpchTable::Nation || table == TpchTable::Region;
        assert_eq!(table.is_partitionable(), !fixed);
    }
}
