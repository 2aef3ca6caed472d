//! The eight TPC-H tables and the names they are asked for by.

use vstd::prelude::*;

verus! {

/// The eight TPC-H tables.
#[derive(Debug, Clone, Copy, PartialEq, Eq, Structural)]
pub enum TpchTable {
    Nation,
    Region,
    Part,
    Supplier,
    Partsupp,
    Customer,
    Orders,
    Lineitem,
}

/// `c` with an ASCII capital turned into its small letter.
pub open spec fn ascii_lower(c: char) -> char {
    if 'A' <= c && c <= 'Z' {
        (c as u32 + 32) as char
    } else {
        c
    }
}

/// `text` with every ASCII capital turned into its small letter.
pub open spec fn ascii_lowercase(text: Seq<char>) -> Seq<char> {
    text.map_values(|c: char| ascii_lower(c))
}

/// The eight tables in the order in which they are listed and loaded.
pub open spec fn table_order() -> Seq<TpchTable> {
    seq![
        TpchTable::Nation,
        TpchTable::Region,
        TpchTable::Part,
        TpchTable::Supplier,
        TpchTable::Partsupp,
        TpchTable::Customer,
        TpchTable::Orders,
        TpchTable::Lineitem,
    ]
}

/// The table whose name is exactly `text`.
pub open spec fn table_with_name(text: Seq<char>) -> Option<TpchTable> {
    if text == "nation"@ {
        Some(TpchTable::Nation)
    } else if text == "region"@ {
        Some(TpchTable::Region)
    } else if text == "part"@ {
        Some(TpchTable::Part)
    } else if text == "supplier"@ {
        Some(TpchTable::Supplier)
    } else if text == "partsupp"@ {
        Some(TpchTable::Partsupp)
    } else if text == "customer"@ {
        Some(TpchTable::Customer)
    } else if text == "orders"@ {
        Some(TpchTable::Orders)
    } else if text == "lineitem"@ {
        Some(TpchTable::Lineitem)
    } else {
        None
    }
}

/// The table that a Parquet run or a load script knows under `text`: the full name, or the
/// one-letter abbreviation that belongs to no other table. Capitals count.
pub open spec fn table_with_abbreviation(text: Seq<char>) -> Option<TpchTable> {
    if text == "n"@ || text == "nation"@ {
        Some(TpchTable::Nation)
    } else if text == "r"@ || text == "region"@ {
        Some(TpchTable::Region)
    } else if text == "s"@ || text == "supplier"@ {
        Some(TpchTable::Supplier)
    } else if text == "P"@ || text == "part"@ {
        Some(TpchTable::Part)
    } else if text == "S"@ || text == "partsupp"@ {
        Some(TpchTable::Partsupp)
    } else if text == "c"@ || text == "customer"@ {
        Some(TpchTable::Customer)
    } else if text == "O"@ || text == "orders"@ {
        Some(TpchTable::Orders)
    } else if text == "L"@ || text == "lineitem"@ {
        Some(TpchTable::Lineitem)
    } else {
        None
    }
}

/// `str::to_ascii_lowercase` of std: a copy of the text in which the ASCII letters `A` to `Z`
/// have become `a` to `z` and every other character has stayed.
#[verifier::external_body]
fn to_ascii_lowercase(text: &str) -> (lower: String)
    ensures
        lower@ == ascii_lowercase(text@),
{
    text.to_ascii_lowercase()
}

/// `str::parse` into `tpchgen_cli::Table`, whose `FromStr` accepts the full name of a table and
/// the abbreviations n, r, s, P, S, c, O and L, as they are spelled, and nothing else.
#[verifier::external_body]
fn parse_cli_table(text: &str) -> (table: Option<TpchTable>)
    ensures
        table == table_with_abbreviation(text@),
{
    match text.parse::<tpchgen_cli::Table>() {
        Ok(tpchgen_cli::Table::Nation) => Some(TpchTable::Nation),
        Ok(tpchgen_cli::Table::Region) => Some(TpchTable::Region),
        Ok(tpchgen_cli::Table::Part) => Some(TpchTable::Part),
        Ok(tpchgen_cli::Table::Supplier) => Some(TpchTable::Supplier),
        Ok(tpchgen_cli::Table::Partsupp) => Some(TpchTable::Partsupp),
        Ok(tpchgen_cli::Table::Customer) => Some(TpchTable::Customer),
        Ok(tpchgen_cli::Table::Orders) => Some(TpchTable::Orders),
        Ok(tpchgen_cli::Table::Lineitem) => Some(TpchTable::Lineitem),
        Err(_) => None,
    }
}

impl TpchTable {
    /// The name of the table, in small letters.
    pub open spec fn text(self) -> Seq<char> {
        match self {
            Self::Nation => "nation"@,
            Self::Region => "region"@,
            Self::Part => "part"@,
            Self::Supplier => "supplier"@,
            Self::Partsupp => "partsupp"@,
            Self::Customer => "customer"@,
            Self::Orders => "orders"@,
            Self::Lineitem => "lineitem"@,
        }
    }

    /// Whether the generator of the table can produce it in partitions.
    pub open spec fn partitionable(self) -> bool {
        self != Self::Nation && self != Self::Region
    }

    /// The table called `name`, whatever the case of its ASCII letters.
    pub fn from_name(name: &str) -> (table: Option<Self>)
        ensures
            table == table_with_name(ascii_lowercase(name@)),
    {
        let lower = to_ascii_lowercase(name);
        if lower == "nation".to_owned() {
            Some(Self::Nation)
        } else if lower == "region".to_owned() {
            Some(Self::Region)
        } else if lower == "part".to_owned() {
            Some(Self::Part)
        } else if lower == "supplier".to_owned() {
            Some(Self::Supplier)
        } else if lower == "partsupp".to_owned() {
            Some(Self::Partsupp)
        } else if lower == "customer".to_owned() {
            Some(Self::Customer)
        } else if lower == "orders".to_owned() {
            Some(Self::Orders)
        } else if lower == "lineitem".to_owned() {
            Some(Self::Lineitem)
        } else {
            None
        }
    }

    /// The table that `name` stands for in a `tables` list: a full name in small letters or an
    /// abbreviation.
    pub fn from_list_entry(name: &str) -> (table: Option<Self>)
        ensures
            table == table_with_abbreviation(name@),
    {
        parse_cli_table(name)
    }

    /// Nation and Region are tiny fixed tables whose generators ignore which partition they are
    /// asked for, so they must be generated by a single producer to avoid duplicated rows.
    pub fn is_partitionable(self) -> (partitionable: bool)
        ensures
            partitionable == self.partitionable(),
    {
        !matches!(self, Self::Nation | Self::Region)
    }

    /// The name of the table, in small letters.
    pub fn name(self) -> (name: &'static str)
        ensures
            name@ == self.text(),
    {
        match self {
            Self::Nation => "nation",
            Self::Region => "region",
            Self::Part => "part",
            Self::Supplier => "supplier",
            Self::Partsupp => "partsupp",
            Self::Customer => "customer",
            Self::Orders => "orders",
            Self::Lineitem => "lineitem",
        }
    }
}

/// All eight tables, in the order in which they are listed and loaded.
pub fn all_tables() -> (tables: Vec<TpchTable>)
    ensures
        tables@ == table_order(),
{
    vec![
        TpchTable::Nation,
        TpchTable::Region,
        TpchTable::Part,
        TpchTable::Supplier,
        TpchTable::Partsupp,
        TpchTable::Customer,
        TpchTable::Orders,
        TpchTable::Lineitem,
    ]
}

/// No two tables share a name, and every name is in small letters.
pub proof fn names_identify_tables(a: TpchTable, b: TpchTable)
    ensures
        a.text() == b.text() ==> a == b,
        ascii_lowercase(a.text()) == a.text(),
{
    reveal_strlit("nation");
    reveal_strlit("region");
    reveal_strlit("part");
    reveal_strlit("supplier");
    reveal_strlit("partsupp");
    reveal_strlit("customer");
    reveal_strlit("orders");
    reveal_strlit("lineitem");
    assert("nation"@[0] == 'n');
    assert("region"@[0] == 'r');
    assert("part"@[0] == 'p');
    assert("supplier"@[0] == 's');
    assert("partsupp"@[0] == 'p');
    assert("customer"@[0] == 'c');
    assert("orders"@[0] == 'o');
    assert("lineitem"@[0] == 'l');
    assert(ascii_lowercase(a.text()) =~= a.text());
}

/// Looking a table up by its own name, in any mix of capitals and small letters, finds that
/// table; and what a lookup finds bears the name that was asked for.
pub proof fn lookup_inverts_name(text: Seq<char>, table: TpchTable)
    ensures
        table_with_name(ascii_lowercase(text)) == Some(table) <==> ascii_lowercase(text)
            == table.text(),
        table_with_name(ascii_lowercase(table.text())) == Some(table),
{
    names_identify_tables(table, TpchTable::Nation);
    names_identify_tables(table, TpchTable::Region);
    names_identify_tables(table, TpchTable::Part);
    names_identify_tables(table, TpchTable::Supplier);
    names_identify_tables(table, TpchTable::Partsupp);
    names_identify_tables(table, TpchTable::Customer);
    names_identify_tables(table, TpchTable::Orders);
    names_identify_tables(table, TpchTable::Lineitem);
}

/// Two spellings that differ only in the case of ASCII letters name the same table.
pub proof fn lookup_ignores_case(a: Seq<char>, b: Seq<char>)
    requires
        ascii_lowercase(a) == ascii_lowercase(b),
    ensures
        table_with_name(ascii_lowercase(a)) == table_with_name(ascii_lowercase(b)),
{
}

/// A full name in small letters means the same table in a `tables` list as it does to `tpch`.
pub proof fn full_names_agree(table: TpchTable)
    ensures
        table_with_abbreviation(table.text()) == Some(table),
        table_with_name(ascii_lowercase(table.text())) == Some(table),
{
    lookup_inverts_name(table.text(), table);
    reveal_strlit("n");
    reveal_strlit("r");
    reveal_strlit("s");
    reveal_strlit("P");
    reveal_strlit("S");
    reveal_strlit("c");
    reveal_strlit("O");
    reveal_strlit("L");
    reveal_strlit("nation");
    reveal_strlit("region");
    reveal_strlit("part");
    reveal_strlit("supplier");
    reveal_strlit("partsupp");
    reveal_strlit("customer");
    reveal_strlit("orders");
    reveal_strlit("lineitem");
    names_identify_tables(table, TpchTable::Nation);
    names_identify_tables(table, TpchTable::Region);
    names_identify_tables(table, TpchTable::Part);
    names_identify_tables(table, TpchTable::Supplier);
    names_identify_tables(table, TpchTable::Partsupp);
    names_identify_tables(table, TpchTable::Customer);
    names_identify_tables(table, TpchTable::Orders);
}

/// The listing holds every table exactly once.
pub proof fn table_order_is_complete(table: TpchTable)
    ensures
        table_order().len() == 8,
        table_order().contains(table),
        table_order().no_duplicates(),
{
    let order = table_order();
    let at: int = match table {
        TpchTable::Nation => 0,
        TpchTable::Region => 1,
        TpchTable::Part => 2,
        TpchTable::Supplier => 3,
        TpchTable::Partsupp => 4,
        TpchTable::Customer => 5,
        TpchTable::Orders => 6,
        TpchTable::Lineitem => 7,
    };
    assert(order[at] == table);
}

/// The names that the tables go by.
pub proof fn tables_bear_their_names()
    ensures
        TpchTable::Nation.text() == "nation"@,
        TpchTable::Region.text() == "region"@,
        TpchTable::Part.text() == "part"@,
        TpchTable::Supplier.text() == "supplier"@,
        TpchTable::Partsupp.text() == "partsupp"@,
        TpchTable::Customer.text() == "customer"@,
        TpchTable::Orders.text() == "orders"@,
        TpchTable::Lineitem.text() == "lineitem"@,
{
}

/// Exactly the tables called nation and region come as a whole only.
pub proof fn fixed_tables_are_nation_and_region(table: TpchTable)
    ensures
        table.partitionable() <==> table.text() != "nation"@ && table.text() != "region"@,
{
    names_identify_tables(table, TpchTable::Nation);
    names_identify_tables(table, TpchTable::Region);
}

/// Turning capitals into small letters keeps the number of characters and changes none but the
/// capitals from A to Z, each of which moves by the distance between the two alphabets.
pub proof fn only_capitals_are_lowered(text: Seq<char>, i: int)
    requires
        0 <= i < text.len(),
    ensures
        ascii_lowercase(text).len() == text.len(),
        'A' <= text[i] && text[i] <= 'Z' ==> ascii_lowercase(text)[i] as u32 == text[i] as u32 + 32,
        text[i] < 'A' || 'Z' < text[i] ==> ascii_lowercase(text)[i] == text[i],
{
}

/// An entry of a `tables` list that stands for a table is the name of that table or a single
/// letter, and every table has but one letter.
pub proof fn entries_are_names_or_letters(a: Seq<char>, b: Seq<char>, table: TpchTable)
    requires
        table_with_abbreviation(a) == Some(table),
        table_with_abbreviation(b) == Some(table),
    ensures
        a == table.text() || a.len() == 1,
        a.len() == 1 && b.len() == 1 ==> a == b,
{
    reveal_strlit("n");
    reveal_strlit("r");
    reveal_strlit("s");
    reveal_strlit("P");
    reveal_strlit("S");
    reveal_strlit("c");
    reveal_strlit("O");
    reveal_strlit("L");
    reveal_strlit("nation");
    reveal_strlit("region");
    reveal_strlit("part");
    reveal_strlit("supplier");
    reveal_strlit("partsupp");
    reveal_strlit("customer");
    reveal_strlit("orders");
    reveal_strlit("lineitem");
}

/// The letters that stand for tables: the first of the name, in capitals where a part, the
/// suppliers of parts, an order or its items are meant.
pub proof fn letters_stand_for_tables()
    ensures
        table_with_abbreviation("n"@) == Some(TpchTable::Nation),
        table_with_abbreviation("r"@) == Some(TpchTable::Region),
        table_with_abbreviation("s"@) == Some(TpchTable::Supplier),
        table_with_abbreviation("c"@) == Some(TpchTable::Customer),
        table_with_abbreviation("P"@) == Some(TpchTable::Part),
        table_with_abbreviation("S"@) == Some(TpchTable::Partsupp),
        table_with_abbreviation("O"@) == Some(TpchTable::Orders),
        table_with_abbreviation("L"@) == Some(TpchTable::Lineitem),
{
    reveal_strlit("n");
    reveal_strlit("r");
    reveal_strlit("s");
    reveal_strlit("P");
    reveal_strlit("S");
    reveal_strlit("c");
    reveal_strlit("O");
    reveal_strlit("L");
    reveal_strlit("nation");
    reveal_strlit("region");
    reveal_strlit("part");
    reveal_strlit("supplier");
    reveal_strlit("partsupp");
    reveal_strlit("customer");
    reveal_strlit("orders");
    reveal_strlit("lineitem");
    assert("n"@[0] == 'n' && "r"@[0] == 'r' && "s"@[0] == 's' && "c"@[0] == 'c');
    assert("P"@[0] == 'P' && "S"@[0] == 'S' && "O"@[0] == 'O' && "L"@[0] == 'L');
}

/// The tables are listed from nation to lineitem.
pub proof fn listing_goes_from_nation_to_lineitem()
    ensures
        table_order().map_values(|table: TpchTable| table.text()) == seq![
            "nation"@,
            "region"@,
            "part"@,
            "supplier"@,
            "partsupp"@,
            "customer"@,
            "orders"@,
            "lineitem"@,
        ],
{
    assert(table_order().map_values(|table: TpchTable| table.text()) =~= seq![
        "nation"@,
        "region"@,
        "part"@,
        "supplier"@,
        "partsupp"@,
        "customer"@,
        "orders"@,
        "lineitem"@,
    ]);
}

} // verus!
