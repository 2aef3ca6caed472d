//! What the table functions accept: their parameters, and the lists of tables and the messages
//! that they have in common.

use crate::table::{all_tables, table_order, table_with_abbreviation, TpchTable};
use vstd::prelude::*;
use vstd::string::*;

verus! {

/// The type of a parameter as DuckDB names it.
#[derive(Debug, Clone, Copy, PartialEq, Eq, Structural)]
pub enum ParameterType {
    Double,
    Integer,
    Bigint,
    Varchar,
    VarcharList,
}

/// A list of named parameters with the names taken as character sequences.
pub open spec fn parameters_view(parameters: Seq<(&'static str, ParameterType)>) -> Seq<
    (Seq<char>, ParameterType),
> {
    parameters.map_values(|p: (&'static str, ParameterType)| (p.0@, p.1))
}

/// Two pieces of text, one after the other.
pub(crate) fn joined(first: &str, second: &str) -> (text: String)
    ensures
        text@ == first@ + second@,
{
    let mut text = String::new();
    text.append(first);
    text.append(second);
    assert(text@ =~= first@ + second@);
    text
}

/// The message for a scale factor that is no number; `reason` says what is wrong with it.
pub open spec fn invalid_scale_factor(reason: Seq<char>) -> Seq<char> {
    "invalid scale factor: "@ + reason
}

/// The message for a table that does not exist.
pub open spec fn unknown_table(name: Seq<char>) -> Seq<char> {
    "unknown TPC-H table: "@ + name
}

pub(crate) fn invalid_scale_factor_message(reason: &str) -> (message: String)
    ensures
        message@ == invalid_scale_factor(reason@),
{
    joined("invalid scale factor: ", reason)
}

pub(crate) fn unknown_table_message(name: &str) -> (message: String)
    ensures
        message@ == unknown_table(name@),
{
    joined("unknown TPC-H table: ", name)
}

/// The position of the first entry of a `tables` list that names no table, or the length of the
/// list.
pub open spec fn first_unknown(names: Seq<Seq<char>>) -> int
    decreases names.len(),
{
    if names.len() == 0 || table_with_abbreviation(names[0]) is None {
        0
    } else {
        1 + first_unknown(names.drop_first())
    }
}

/// What a `tables` list asks for. No list, or an empty one, means all tables; otherwise the
/// tables of the list in the order of the list, unless an entry names no table.
pub open spec fn requested(names: Option<Seq<Seq<char>>>) -> Result<Seq<TpchTable>, Seq<char>> {
    match names {
        Some(names) if names.len() > 0 => if first_unknown(names) < names.len() {
            Err(unknown_table(names[first_unknown(names)]))
        } else {
            Ok(names.map_values(|name: Seq<char>| table_with_abbreviation(name).unwrap()))
        },
        _ => Ok(table_order()),
    }
}

/// A `tables` list with its entries taken as character sequences.
pub open spec fn names_view(names: Option<Vec<String>>) -> Option<Seq<Seq<char>>> {
    match names {
        Some(names) => Some(names@.map_values(|name: String| name@)),
        None => None,
    }
}

/// `known` entries name tables and the one after them does not.
proof fn first_unknown_is(names: Seq<Seq<char>>, known: int)
    requires
        0 <= known <= names.len(),
        forall|i: int| 0 <= i < known ==> table_with_abbreviation(#[trigger] names[i]) is Some,
        known < names.len() ==> table_with_abbreviation(names[known]) is None,
    ensures
        first_unknown(names) == known,
    decreases names.len(),
{
    if known > 0 {
        assert(table_with_abbreviation(names[0]) is Some);
        assert forall|i: int| 0 <= i < known - 1 implies table_with_abbreviation(
            #[trigger] names.drop_first()[i],
        ) is Some by {
            assert(names.drop_first()[i] == names[i + 1]);
        }
        if known < names.len() {
            assert(names.drop_first()[known - 1] == names[known]);
        }
        first_unknown_is(names.drop_first(), known - 1);
    }
}

/// The tables that a `tables` list asks for.
pub fn requested_tables(names: &Option<Vec<String>>) -> (tables: Result<Vec<TpchTable>, String>)
    ensures
        match (tables, requested(names_view(*names))) {
            (Ok(tables), Ok(wanted)) => tables@ == wanted,
            (Err(message), Err(wanted)) => message@ == wanted,
            _ => false,
        },
        tables matches Ok(tables) ==> (names matches Some(list) ==> list@.len() > 0 ==> {
            &&& tables@.len() == list@.len()
            &&& forall|i: int|
                0 <= i < list@.len() ==> table_with_abbreviation(list@[i]@) == Some(
                    #[trigger] tables@[i],
                )
        }),
{
    match names {
        Some(list) => {
            if list.len() == 0 {
                return Ok(all_tables());
            }
            let ghost texts = list@.map_values(|name: String| name@);
            let mut tables: Vec<TpchTable> = Vec::new();
            for i in 0..list.len()
                invariant
                    names_view(*names) == Some(texts),
                    texts == list@.map_values(|name: String| name@),
                    tables@.len() == i,
                    forall|j: int|
                        0 <= j < i ==> table_with_abbreviation(#[trigger] texts[j]) == Some(
                            tables@[j],
                        ),
            {
                match TpchTable::from_list_entry(list[i].as_str()) {
                    Some(table) => {
                        tables.push(table);
                    },
                    None => {
                        proof {
                            first_unknown_is(texts, i as int);
                        }
                        return Err(unknown_table_message(list[i].as_str()));
                    },
                }
            }
            proof {
                first_unknown_is(texts, texts.len() as int);
                assert(tables@ =~= texts.map_values(
                    |name: Seq<char>| table_with_abbreviation(name).unwrap(),
                ));
            }
            Ok(tables)
        },
        None => Ok(all_tables()),
    }
}

/// No list, and a list without entries, ask for all eight tables.
pub proof fn no_entries_request_all_tables(table: TpchTable)
    ensures
        requested(None) == Ok::<Seq<TpchTable>, Seq<char>>(table_order()),
        requested(Some(seq![])) == Ok::<Seq<TpchTable>, Seq<char>>(table_order()),
        table_order().contains(table),
{
    crate::table::table_order_is_complete(table);
}

/// The full names of some tables, in small letters, ask for exactly those tables.
pub proof fn full_names_request_their_tables(tables: Seq<TpchTable>)
    requires
        tables.len() > 0,
    ensures
        requested(Some(tables.map_values(|table: TpchTable| table.text()))) == Ok::<
            Seq<TpchTable>,
            Seq<char>,
        >(tables),
{
    let names = tables.map_values(|table: TpchTable| table.text());
    assert forall|i: int| 0 <= i < names.len() implies table_with_abbreviation(
        #[trigger] names[i],
    ) == Some(tables[i]) by {
        crate::table::full_names_agree(tables[i]);
    }
    first_unknown_is(names, names.len() as int);
    assert(names.map_values(|name: Seq<char>| table_with_abbreviation(name).unwrap()) =~= tables);
}

/// A message says what kind of thing is wrong and then quotes it in full.
pub proof fn messages_quote_the_cause(cause: Seq<char>)
    ensures
        invalid_scale_factor(cause) == "invalid scale factor: "@ + cause,
        unknown_table(cause) == "unknown TPC-H table: "@ + cause,
{
}

/// Taking a list of names as character sequences keeps every entry.
pub proof fn names_are_kept(list: Vec<String>, i: int)
    requires
        0 <= i < list@.len(),
    ensures
        names_view(None) is None,
        names_view(Some(list)) matches Some(names) && names.len() == list@.len() && names[i]
            == list@[i]@,
{
}

/// Taking the names of parameters as character sequences keeps every parameter.
pub proof fn parameters_keep_name_and_type(parameters: Seq<(&'static str, ParameterType)>, i: int)
    requires
        0 <= i < parameters.len(),
    ensures
        parameters_view(parameters).len() == parameters.len(),
        parameters_view(parameters)[i] == (parameters[i].0@, parameters[i].1),
{
}

/// A list with entries is granted if and only if every entry stands for a table; it is then
/// granted entry by entry. Otherwise the answer quotes the first entry that does not.
pub proof fn lists_are_granted_entry_by_entry(names: Seq<Seq<char>>)
    requires
        names.len() > 0,
    ensures
        requested(Some(names)) is Ok <==> forall|i: int|
            0 <= i < names.len() ==> table_with_abbreviation(#[trigger] names[i]) is Some,
        requested(Some(names)) matches Ok(tables) ==> {
            &&& tables.len() == names.len()
            &&& forall|i: int|
                0 <= i < names.len() ==> table_with_abbreviation(names[i]) == Some(
                    #[trigger] tables[i],
                )
        },
        requested(Some(names)) matches Err(message) ==> exists|k: int| {
            &&& 0 <= k < names.len()
            &&& message == "unknown TPC-H table: "@ + #[trigger] names[k]
            &&& table_with_abbreviation(names[k]) is None
            &&& forall|i: int|
                0 <= i < k ==> table_with_abbreviation(#[trigger] names[i]) is Some
        },
{
    known_before_the_first_unknown(names);
    let k = first_unknown(names);
    if k < names.len() {
        assert(requested(Some(names)) == Err::<Seq<TpchTable>, Seq<char>>(unknown_table(names[k])));
    } else {
        assert forall|i: int| 0 <= i < names.len() implies table_with_abbreviation(
            #[trigger] names[i],
        ) is Some by {}
    }
}

proof fn known_before_the_first_unknown(names: Seq<Seq<char>>)
    ensures
        0 <= first_unknown(names) <= names.len(),
        forall|i: int|
            0 <= i < first_unknown(names) ==> table_with_abbreviation(#[trigger] names[i]) is Some,
        first_unknown(names) < names.len() ==> table_with_abbreviation(names[first_unknown(names)])
            is None,
    decreases names.len(),
{
    if names.len() > 0 && table_with_abbreviation(names[0]) is Some {
        known_before_the_first_unknown(names.drop_first());
        assert forall|i: int| 0 <= i < first_unknown(names) implies table_with_abbreviation(
            #[trigger] names[i],
        ) is Some by {
            if i > 0 {
                assert(names.drop_first()[i - 1] == names[i]);
            }
        }
    }
}

} // verus!
