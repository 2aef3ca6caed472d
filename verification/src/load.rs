//! The table function `tpch_load(sf, ...)`, which returns the statements that load the tables.

use crate::chunk::{column_of, filled_columns, Chunk, Value, BATCH_SIZE};
use crate::pump::{batch_len, batches, batches_hold_all_rows};
use crate::request::{
    invalid_scale_factor, invalid_scale_factor_message, names_view, parameters_view, requested,
    requested_tables, ParameterType,
};
use crate::schema::{columns_view, varchar, ColumnType};
use crate::table::{
    ascii_lowercase, lookup_inverts_name, names_identify_tables, table_order,
    table_order_is_complete, table_with_name, TpchTable,
};
use vstd::prelude::*;
use vstd::string::*;

verus! {

/// The parameter of `tpch_load`: the scale factor.
pub fn load_parameters() -> (parameters: Vec<ParameterType>)
    ensures
        parameters@ == seq![ParameterType::Double],
{
    let parameters = vec![ParameterType::Double];
    assert(parameters@ =~= seq![ParameterType::Double]);
    parameters
}

/// The named parameter of `tpch_load`, which is optional.
pub fn load_named_parameters() -> (parameters: Vec<(&'static str, ParameterType)>)
    ensures
        parameters_view(parameters@) == seq![("tables"@, ParameterType::VarcharList)],
{
    let parameters = vec![("tables", ParameterType::VarcharList)];
    assert(parameters_view(parameters@) =~= seq![("tables"@, ParameterType::VarcharList)]);
    parameters
}

/// The columns of the result of `tpch_load`.
pub fn load_columns() -> (columns: Vec<(&'static str, ColumnType)>)
    ensures
        columns_view(columns@) == seq![
            ("table_name"@, ColumnType::Varchar),
            ("statement"@, ColumnType::Varchar),
        ],
{
    let columns = vec![("table_name", varchar()), ("statement", varchar())];
    assert(columns_view(columns@) =~= seq![
        ("table_name"@, ColumnType::Varchar),
        ("statement"@, ColumnType::Varchar),
    ]);
    columns
}

/// A script that loads some tables at one scale factor.
#[derive(Debug, PartialEq, Eq)]
pub struct TpchLoadBindData {
    pub sf: String,
    pub tables: Vec<TpchTable>,
}

/// Binds a load script. `sf` is the text of the scale factor, or what is wrong with it where it
/// is no number; `tables` restricts the script to some of the tables.
pub fn bind_tpch_load(sf: Result<String, String>, tables: &Option<Vec<String>>) -> (bound: Result<
    TpchLoadBindData,
    String,
>)
    ensures
        match (sf, requested(names_view(*tables))) {
            (Err(reason), _) => bound matches Err(message) && message@ == invalid_scale_factor(
                reason@,
            ),
            (Ok(_), Err(wanted)) => bound matches Err(message) && message@ == wanted,
            (Ok(text), Ok(wanted)) => bound matches Ok(script) && script.sf@ == text@
                && script.tables@ == wanted,
        },
        sf matches Err(reason) ==> (bound matches Err(message) && message@
            == "invalid scale factor: "@ + reason@),
        bound matches Ok(script) ==> (sf matches Ok(text) && script.sf@ == text@),
{
    match sf {
        Err(reason) => Err(invalid_scale_factor_message(reason.as_str())),
        Ok(sf) => match requested_tables(tables) {
            Err(message) => Err(message),
            Ok(tables) => Ok(TpchLoadBindData { sf, tables }),
        },
    }
}

/// The statement that loads the table called `name` at scale factor `sf`.
pub open spec fn create_statement(sf: Seq<char>, name: Seq<char>) -> Seq<char> {
    "CREATE TABLE "@ + name + " AS FROM tpch("@ + sf + ", '"@ + name + "');"@
}

/// The first line of a script. It lets DuckDB parallelize the inserts: generated data has no
/// meaningful order.
pub open spec fn settings_line() -> Seq<Value> {
    seq![Value::Text("(settings)"@), Value::Text("SET preserve_insertion_order = false;"@)]
}

/// The line of a script that loads `table`.
pub open spec fn table_line(sf: Seq<char>, table: TpchTable) -> Seq<Value> {
    seq![Value::Text(table.text()), Value::Text(create_statement(sf, table.text()))]
}

/// The script that loads `tables` at scale factor `sf`, line by line.
pub open spec fn load_script(sf: Seq<char>, tables: Seq<TpchTable>) -> Seq<Seq<Value>> {
    seq![settings_line()] + tables.map_values(|table: TpchTable| table_line(sf, table))
}

/// A line of a script: what it is for, and the statement.
#[derive(Debug, PartialEq, Eq)]
pub struct ScriptLine {
    pub table_name: &'static str,
    pub statement: String,
}

impl View for ScriptLine {
    type V = Seq<Value>;

    /// The fields, in column order.
    open spec fn view(&self) -> Seq<Value> {
        seq![Value::Text(self.table_name@), Value::Text(self.statement@)]
    }
}

/// The statement that loads `table` at scale factor `sf`.
pub fn create_table_as(sf: &str, table: TpchTable) -> (statement: String)
    ensures
        statement@ == create_statement(sf@, table.text()),
        statement@ == "CREATE TABLE "@ + table.text() + " AS FROM tpch("@ + sf@ + ", '"@
            + table.text() + "');"@,
{
    let name = table.name();
    let mut statement = String::new();
    statement.append("CREATE TABLE ");
    statement.append(name);
    statement.append(" AS FROM tpch(");
    statement.append(sf);
    statement.append(", '");
    statement.append(name);
    statement.append("');");
    assert(statement@ =~= create_statement(sf@, table.text()));
    statement
}

/// The scan of a load script: the lines that have not been emitted yet.
#[derive(Debug)]
pub struct LoadScan {
    pub lines: Vec<ScriptLine>,
}

impl LoadScan {
    /// The lines that have not been emitted yet.
    pub open spec fn pending(&self) -> Seq<Seq<Value>> {
        self.lines@.map_values(|line: ScriptLine| line@)
    }

    /// Starts the scan of a script.
    pub fn new(script: &TpchLoadBindData) -> (scan: LoadScan)
        ensures
            scan.pending() == load_script(script.sf@, script.tables@),
            scan.lines@.len() == script.tables@.len() + 1,
            scan.lines@[0].table_name@ == "(settings)"@,
            scan.lines@[0].statement@ == "SET preserve_insertion_order = false;"@,
            forall|i: int|
                0 <= i < script.tables@.len() ==> (#[trigger] scan.lines@[i + 1]).table_name@
                    == script.tables@[i].text(),
            forall|i: int|
                0 <= i < script.tables@.len() ==> (#[trigger] scan.lines@[i + 1]).statement@
                    == "CREATE TABLE "@ + script.tables@[i].text() + " AS FROM tpch("@ + script.sf@
                    + ", '"@ + script.tables@[i].text() + "');"@,
    {
        let mut lines: Vec<ScriptLine> = Vec::new();
        lines.push(
            ScriptLine {
                table_name: "(settings)",
                statement: "SET preserve_insertion_order = false;".to_owned(),
            },
        );
        assert(lines@[0]@ =~= settings_line());
        for i in 0..script.tables.len()
            invariant
                lines@.len() == i + 1,
                lines@[0]@ == settings_line(),
                forall|j: int|
                    0 <= j < i ==> (#[trigger] lines@[j + 1])@ == table_line(
                        script.sf@,
                        script.tables@[j],
                    ),
                lines@[0].table_name@ == "(settings)"@,
                lines@[0].statement@ == "SET preserve_insertion_order = false;"@,
                forall|j: int|
                    0 <= j < i ==> (#[trigger] lines@[j + 1]).table_name@
                        == script.tables@[j].text(),
                forall|j: int|
                    0 <= j < i ==> (#[trigger] lines@[j + 1]).statement@ == "CREATE TABLE "@
                        + script.tables@[j].text() + " AS FROM tpch("@ + script.sf@ + ", '"@
                        + script.tables@[j].text() + "');"@,
        {
            let table = script.tables[i];
            let line = ScriptLine {
                table_name: table.name(),
                statement: create_table_as(script.sf.as_str(), table),
            };
            assert(line@ =~= table_line(script.sf@, table));
            lines.push(line);
        }
        let scan = LoadScan { lines };
        proof {
            let whole = load_script(script.sf@, script.tables@);
            assert forall|k: int| 0 <= k < whole.len() implies scan.pending()[k] == whole[k] by {
                if k > 0 {
                    assert(lines@[(k - 1) + 1]@ == table_line(script.sf@, script.tables@[k - 1]));
                }
            }
            assert(scan.pending() =~= whole);
        }
        scan
    }

    /// One pull: the next lines of the script, as many as a chunk takes. Once all of them have
    /// been emitted the chunk has no rows and the scan ends.
    pub fn step(&mut self) -> (output: Chunk)
        ensures
            output.wf(),
            output.rows() == old(self).pending().take(
                batch_len(old(self).pending().len()) as int,
            ),
            final(self).pending() == old(self).pending().skip(
                batch_len(old(self).pending().len()) as int,
            ),
    {
        let ghost before = self.pending();
        let mut later: Vec<ScriptLine> = Vec::new();
        if self.lines.len() > BATCH_SIZE {
            later = self.lines.split_off(BATCH_SIZE);
        }
        std::mem::swap(&mut self.lines, &mut later);
        let lines = later;
        let ghost stored = lines@.map_values(|line: ScriptLine| line@);
        assert(stored =~= before.take(batch_len(before.len()) as int));
        assert(self.pending() =~= before.skip(batch_len(before.len()) as int));

        let mut output = Chunk::with_columns(&load_columns());
        assert(output.columns@.len() == output.storages().len() == 2);
        output.put_str(
            0,
            &lines,
            |l: &ScriptLine| -> (v: &'static str) ensures v@ == l.table_name@ { l.table_name },
        );
        assert(output.columns@[0].values() =~= column_of(stored, 0));
        output.put_display(
            1,
            &lines,
            |l: &ScriptLine| -> (v: String) ensures v@ == l.statement@ { l.statement.clone() },
        );
        assert(output.columns@[1].values() =~= column_of(stored, 1));
        output.set_len(lines.len());
        proof {
            assert(output.storages().len() == 2);
            filled_columns(output, stored);
        }
        output
    }
}

/// A script starts with the settings and then has one line for each table, in order; the
/// statement creates the table under a name that `tpch` resolves to that very table.
pub proof fn script_lines_name_tables(sf: Seq<char>, tables: Seq<TpchTable>, i: int)
    requires
        0 <= i < tables.len(),
    ensures
        load_script(sf, tables).len() == tables.len() + 1,
        load_script(sf, tables)[0] == settings_line(),
        load_script(sf, tables)[i + 1] == table_line(sf, tables[i]),
        table_with_name(ascii_lowercase(tables[i].text())) == Some(tables[i]),
{
    lookup_inverts_name(tables[i].text(), tables[i]);
}

/// The script for all tables loads every table, and none of them twice.
pub proof fn full_script_loads_every_table(sf: Seq<char>, table: TpchTable)
    ensures
        load_script(sf, table_order()).len() == 9,
        exists|i: int|
            1 <= i < 9 && #[trigger] load_script(sf, table_order())[i] == table_line(sf, table),
        forall|i: int, j: int|
            1 <= i < j < 9 ==> #[trigger] load_script(sf, table_order())[i][0]
                != #[trigger] load_script(sf, table_order())[j][0],
{
    table_order_is_complete(table);
    let order = table_order();
    let script = load_script(sf, order);
    let at = choose|at: int| 0 <= at < order.len() && order[at] == table;
    assert(script[at + 1] == table_line(sf, table));
    assert forall|i: int, j: int| 1 <= i < j < 9 implies #[trigger] script[i][0]
        != #[trigger] script[j][0] by {
        assert(script[i] == table_line(sf, order[i - 1]));
        assert(script[j] == table_line(sf, order[j - 1]));
        names_identify_tables(order[i - 1], order[j - 1]);
    }
}

/// Pull after pull, a scan emits the lines of its script batch by batch; a script that fits a
/// chunk is emitted by the first pull, and the second pull ends the scan.
pub proof fn pulls_emit_the_script(lines: Seq<Seq<Value>>)
    ensures
        lines.len() > 0 ==> batches(lines) == seq![lines.take(batch_len(lines.len()) as int)]
            + batches(lines.skip(batch_len(lines.len()) as int)),
        batches(lines).flatten() == lines,
        lines.len() <= BATCH_SIZE ==> lines.take(batch_len(lines.len()) as int) == lines
            && lines.skip(batch_len(lines.len()) as int).len() == 0,
{
    batches_hold_all_rows(lines);
}

/// The statement for a table creates that table and reads from that same table at the scale
/// factor: one and the same name stands in it twice, before and after the scale factor, and `tpch`
/// resolves it to the table.
pub proof fn statements_create_what_they_read(sf: Seq<char>, table: TpchTable)
    ensures
        ("CREATE TABLE "@ + table.text() + " AS FROM tpch("@ + sf).is_prefix_of(
            create_statement(sf, table.text()),
        ),
        (sf + ", '"@ + table.text() + "');"@).is_suffix_of(create_statement(sf, table.text())),
        create_statement(sf, table.text()) == "CREATE TABLE "@ + table.text() + " AS FROM tpch("@
            + sf + ", '"@ + table.text() + "');"@,
        table_with_name(ascii_lowercase(table.text())) == Some(table),
{
    lookup_inverts_name(table.text(), table);
    let start = "CREATE TABLE "@ + table.text() + " AS FROM tpch("@;
    let whole = start + sf + ", '"@ + table.text() + "');"@;
    assert(whole =~= start + (sf + ", '"@ + table.text() + "');"@));
    assert(whole.skip(start.len() as int) =~= sf + ", '"@ + table.text() + "');"@);
}

/// Different tables have different statements, and so do different scale factors.
pub proof fn statements_differ(a: Seq<char>, b: Seq<char>, table: TpchTable)
    requires
        create_statement(a, table.text()) == create_statement(b, table.text()),
    ensures
        a == b,
{
    let start = "CREATE TABLE "@ + table.text() + " AS FROM tpch("@;
    let end = ", '"@ + table.text() + "');"@;
    assert(create_statement(a, table.text()) =~= start + a + end);
    assert(create_statement(b, table.text()) =~= start + b + end);
    assert((start + a + end).len() == (start + b + end).len());
    assert forall|i: int| 0 <= i < a.len() implies a[i] == b[i] by {
        assert((start + a + end)[start.len() + i] == (start + b + end)[start.len() + i]);
    }
    assert(a =~= b);
}

/// A line of a script is shown as the name of the table and the statement that loads it, and the
/// first line as the setting that lets DuckDB insert in parallel.
pub proof fn lines_hold_name_and_statement(line: ScriptLine, sf: Seq<char>, table: TpchTable)
    ensures
        line@ == seq![Value::Text(line.table_name@), Value::Text(line.statement@)],
        table_line(sf, table) == seq![
            Value::Text(table.text()),
            Value::Text(
                "CREATE TABLE "@ + table.text() + " AS FROM tpch("@ + sf + ", '"@ + table.text()
                    + "');"@,
            ),
        ],
        settings_line() == seq![
            Value::Text("(settings)"@),
            Value::Text("SET preserve_insertion_order = false;"@),
        ],
{
}

} // verus!
