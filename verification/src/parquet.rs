//! The table function `tpch_gen(sf, output_dir, ...)`, which writes Parquet files.

use crate::chunk::{Chunk, Value};
use crate::once::{claimed, RunOnce};
use crate::request::{
    invalid_scale_factor, invalid_scale_factor_message, joined, names_view, parameters_view,
    lists_are_granted_entry_by_entry, requested, requested_tables, ParameterType,
};
use crate::schema::{columns_view, varchar, ColumnType};
use crate::table::{table_order, table_with_abbreviation, TpchTable};
use vstd::prelude::*;
use vstd::string::*;

verus! {

/// The parameters of `tpch_gen`: the scale factor and the directory to write to.
pub fn gen_parameters() -> (parameters: Vec<ParameterType>)
    ensures
        parameters@ == seq![ParameterType::Double, ParameterType::Varchar],
{
    let parameters = vec![ParameterType::Double, ParameterType::Varchar];
    assert(parameters@ =~= seq![ParameterType::Double, ParameterType::Varchar]);
    parameters
}

/// The named parameters of `tpch_gen`, all of them optional.
pub fn gen_named_parameters() -> (parameters: Vec<(&'static str, ParameterType)>)
    ensures
        parameters_view(parameters@) == seq![
            ("tables"@, ParameterType::VarcharList),
            ("parts"@, ParameterType::Integer),
            ("part"@, ParameterType::Integer),
            ("compression"@, ParameterType::Varchar),
            ("row_group_bytes"@, ParameterType::Bigint),
        ],
{
    let parameters = vec![
        ("tables", ParameterType::VarcharList),
        ("parts", ParameterType::Integer),
        ("part", ParameterType::Integer),
        ("compression", ParameterType::Varchar),
        ("row_group_bytes", ParameterType::Bigint),
    ];
    assert(parameters_view(parameters@) =~= seq![
        ("tables"@, ParameterType::VarcharList),
        ("parts"@, ParameterType::Integer),
        ("part"@, ParameterType::Integer),
        ("compression"@, ParameterType::Varchar),
        ("row_group_bytes"@, ParameterType::Bigint),
    ]);
    parameters
}

/// The columns of the result of `tpch_gen`.
pub fn gen_columns() -> (columns: Vec<(&'static str, ColumnType)>)
    ensures
        columns_view(columns@) == seq![("status"@, ColumnType::Varchar)],
{
    let columns = vec![("status", varchar())];
    assert(columns_view(columns@) =~= seq![("status"@, ColumnType::Varchar)]);
    columns
}

/// The target size of a Parquet row group where none is asked for: 7 MB.
pub const DEFAULT_ROW_GROUP_BYTES: i64 = 7_340_032;

/// What `tpchgen_cli::Compression` has against `text` as the name of a codec: nothing, or the
/// message of its `FromStr`.
pub uninterp spec fn compression_error(text: Seq<char>) -> Option<Seq<char>>;

/// Where a level is given, the text ends in the closing bracket.
pub open spec fn level_is_closed(text: Seq<char>) -> bool {
    text.contains('(') ==> text.last() == ')'
}

/// One of the codecs that take no level.
pub open spec fn is_plain_codec(text: Seq<char>) -> bool {
    text == "uncompressed"@ || text == "snappy"@ || text == "lz4"@
}

/// One of the codecs that need a level.
pub open spec fn is_leveled_codec(text: Seq<char>) -> bool {
    text == "gzip"@ || text == "brotli"@ || text == "zstd"@
}

/// `codec` with a level of 1 to 9, as in `zstd(3)`.
pub open spec fn with_level(codec: Seq<char>, digit: char) -> Seq<char> {
    codec + seq!['(', digit, ')']
}

/// `str::parse` into `tpchgen_cli::Compression`, the Parquet codecs: whether its `FromStr`
/// accepts `text`, and its message if not. It accepts `uncompressed`, `snappy` and `lz4` as they
/// are; `gzip`, `brotli` and `zstd` it refuses without a level and accepts with one of 1 to 9.
/// It cuts the last character off a level without looking at it, which an open bracket at the
/// end of the text would make it do out of bounds.
#[verifier::external_body]
fn check_codec(text: &str) -> (verdict: Result<(), String>)
    requires
        level_is_closed(text@),
    ensures
        match verdict {
            Ok(_) => compression_error(text@) is None,
            Err(message) => compression_error(text@) == Some(message@),
        },
        is_plain_codec(text@) ==> verdict is Ok,
        is_leveled_codec(text@) ==> verdict is Err,
        forall|codec: Seq<char>, digit: char|
            is_leveled_codec(codec) && '1' <= digit <= '9' && text@ == #[trigger] with_level(
                codec,
                digit,
            ) ==> verdict is Ok,
{
    match text.parse::<tpchgen_cli::Compression>() {
        Ok(_) => Ok(()),
        Err(error) => Err(error.to_string()),
    }
}

/// Whether a level that is given is closed.
fn has_closed_level(text: &str) -> (closed: bool)
    ensures
        closed == level_is_closed(text@),
{
    let len = text.unicode_len();
    let mut i: usize = 0;
    while i < len
        invariant
            len == text@.len(),
            i <= len,
            forall|j: int| 0 <= j < i ==> text@[j] != '(',
        decreases len - i,
    {
        if text.get_char(i) == '(' {
            assert(text@.contains('('));
            return text.get_char(len - 1) == ')';
        }
        i = i + 1;
    }
    true
}

/// The message for a codec that does not exist or lacks its level.
pub open spec fn invalid_compression(reason: Seq<char>) -> Seq<char> {
    "invalid compression: "@ + reason
}

/// What is wrong with a codec, if anything.
pub open spec fn compression_fault(text: Seq<char>) -> Option<Seq<char>> {
    if level_is_closed(text) {
        compression_error(text)
    } else {
        Some(text)
    }
}

/// The codec that is asked for, or `snappy`.
pub fn requested_compression(compression: Option<String>) -> (codec: Result<String, String>)
    ensures
        match compression {
            None => codec matches Ok(text) && text@ == "snappy"@,
            Some(text) => match compression_fault(text@) {
                None => codec matches Ok(accepted) && accepted@ == text@,
                Some(reason) => codec matches Err(message) && message@ == invalid_compression(
                    reason,
                ),
            },
        },
        compression matches Some(text) && is_plain_codec(text@) ==> codec is Ok,
        compression matches Some(text) && is_leveled_codec(text@) ==> codec is Err,
        forall|name: Seq<char>, digit: char|
            (compression matches Some(text) && text@ == #[trigger] with_level(name, digit))
                && is_leveled_codec(name) && '1' <= digit <= '9' ==> codec is Ok,
{
    match compression {
        None => Ok("snappy".to_owned()),
        Some(text) => {
            proof {
                reveal_strlit("uncompressed");
                reveal_strlit("snappy");
                reveal_strlit("lz4");
                reveal_strlit("gzip");
                reveal_strlit("brotli");
                reveal_strlit("zstd");
                assert(is_plain_codec(text@) || is_leveled_codec(text@) ==> level_is_closed(text@));
                assert forall|name: Seq<char>, digit: char|
                    text@ == #[trigger] with_level(name, digit) implies level_is_closed(text@) by {
                    assert(with_level(name, digit).last() == ')');
                }
            }
            if !has_closed_level(text.as_str()) {
                return Err(joined("invalid compression: ", text.as_str()));
            }
            match check_codec(text.as_str()) {
                Ok(_) => Ok(text),
                Err(reason) => Err(joined("invalid compression: ", reason.as_str())),
            }
        },
    }
}

/// What `tpch_gen` is called with. `sf` is the text of the scale factor, or what is wrong with it
/// where it is no number.
#[derive(Debug, PartialEq, Eq)]
pub struct GenArguments {
    pub sf: Result<String, String>,
    pub output_dir: String,
    pub tables: Option<Vec<String>>,
    pub parts: Option<i32>,
    pub part: Option<i32>,
    pub compression: Option<String>,
    pub row_group_bytes: Option<i64>,
}

/// A run that writes Parquet files.
#[derive(Debug, PartialEq, Eq)]
pub struct TpchGenBindData {
    pub sf: String,
    pub output_dir: String,
    pub tables: Vec<TpchTable>,
    /// The number of files that each table is split into; one if it is not given.
    pub parts: Option<i32>,
    /// The only one of the `parts` to generate.
    pub part: Option<i32>,
    pub compression: String,
    /// The target size of a row group inside a file.
    pub row_group_bytes: i64,
}

impl TpchGenBindData {
    /// The run is the one that `arguments` ask for.
    pub open spec fn answers(self, arguments: GenArguments) -> bool {
        &&& arguments.sf matches Ok(sf) && self.sf@ == sf@
        &&& self.output_dir@ == arguments.output_dir@
        &&& requested(names_view(arguments.tables)) matches Ok(tables) && self.tables@ == tables
        &&& self.parts == arguments.parts
        &&& self.part == arguments.part
        &&& self.compression@ == match arguments.compression {
            Some(codec) => codec@,
            None => "snappy"@,
        }
        &&& self.row_group_bytes == match arguments.row_group_bytes {
            Some(bytes) => bytes,
            None => DEFAULT_ROW_GROUP_BYTES,
        }
    }
}

/// The message with which `arguments` are refused: for the scale factor, then for a table, then
/// for the compression.
pub open spec fn gen_refusal(arguments: GenArguments) -> Option<Seq<char>> {
    match (arguments.sf, requested(names_view(arguments.tables)), arguments.compression) {
        (Err(reason), _, _) => Some(invalid_scale_factor(reason@)),
        (Ok(_), Err(message), _) => Some(message),
        (Ok(_), Ok(_), Some(codec)) => match compression_fault(codec@) {
            Some(reason) => Some(invalid_compression(reason)),
            None => None,
        },
        (Ok(_), Ok(_), None) => None,
    }
}

/// Binds a run that writes Parquet files.
pub fn bind_tpch_gen(arguments: GenArguments) -> (bound: Result<TpchGenBindData, String>)
    ensures
        match bound {
            Ok(run) => gen_refusal(arguments) is None && run.answers(arguments),
            Err(message) => gen_refusal(arguments) == Some(message@),
        },
        bound matches Ok(run) ==> {
            &&& run.parts == arguments.parts
            &&& run.part == arguments.part
            &&& arguments.sf matches Ok(sf) && run.sf@ == sf@
            &&& run.output_dir@ == arguments.output_dir@
            &&& arguments.compression matches Some(codec) ==> run.compression@ == codec@
            &&& arguments.compression is None ==> run.compression@ == "snappy"@
            &&& arguments.row_group_bytes matches Some(bytes) ==> run.row_group_bytes == bytes
            &&& arguments.row_group_bytes is None ==> run.row_group_bytes == 7_340_032
            &&& requested(names_view(arguments.tables)) == Ok::<Seq<TpchTable>, Seq<char>>(
                run.tables@,
            )
        },
        arguments.sf matches Err(reason) ==> (bound matches Err(message) && message@
            == "invalid scale factor: "@ + reason@),
{
    let sf = match arguments.sf {
        Ok(sf) => sf,
        Err(reason) => {
            return Err(invalid_scale_factor_message(reason.as_str()));
        },
    };
    let tables = match requested_tables(&arguments.tables) {
        Ok(tables) => tables,
        Err(message) => {
            return Err(message);
        },
    };
    let compression = match requested_compression(arguments.compression) {
        Ok(compression) => compression,
        Err(message) => {
            return Err(message);
        },
    };
    let row_group_bytes: i64 = match arguments.row_group_bytes {
        Some(bytes) => bytes,
        None => DEFAULT_ROW_GROUP_BYTES,
    };
    Ok(
        TpchGenBindData {
            sf,
            output_dir: arguments.output_dir,
            tables,
            parts: arguments.parts,
            part: arguments.part,
            compression,
            row_group_bytes,
        },
    )
}

/// What a pull of `tpch_gen` is answered with.
#[derive(Debug)]
pub enum GenStep {
    /// Generate the files now, then answer with what came of it.
    Generate,
    /// Emit this chunk.
    Emit(Chunk),
}

/// One pull. The first one generates the files; every later one ends the scan, or the data set
/// would be produced twice.
pub fn gen_step(once: &mut RunOnce) -> (step: GenStep)
    ensures
        (step is Generate, final(once).done()) == claimed(old(once).done()),
        step matches GenStep::Emit(chunk) ==> chunk.wf() && chunk.len == 0,
{
    if once.claim() {
        GenStep::Generate
    } else {
        GenStep::Emit(Chunk::end_of_scan())
    }
}

/// What the status column says after the files have been written.
pub open spec fn generated_status() -> Seq<char> {
    "Successfully generated TPC-H data"@
}

/// The single row that reports that the files have been written.
pub fn gen_finished() -> (output: Chunk)
    ensures
        output.wf(),
        output.rows() == seq![seq![Value::Text(generated_status())]],
{
    let mut output = Chunk::with_columns(&gen_columns());
    let status: Vec<&'static str> = vec!["Successfully generated TPC-H data"];
    output.put_str(
        0,
        &status,
        |text: &&'static str| -> (v: &'static str) ensures v@ == text@ { *text },
    );
    output.set_len(1);
    assert(output.columns@.len() == output.storages().len());
    assert(output.rows() =~~= seq![seq![Value::Text(generated_status())]]);
    output
}

/// What the pull that generates the files is answered with: the status once they have been
/// written, and where that failed the error alone.
pub fn gen_answer<E>(outcome: Result<(), E>) -> (answer: Result<Chunk, E>)
    ensures
        match outcome {
            Ok(_) => answer matches Ok(output) && output.wf() && output.rows()
                == seq![seq![Value::Text(generated_status())]],
            Err(error) => answer == Err::<Chunk, E>(error),
        },
{
    match outcome {
        Ok(_) => Ok(gen_finished()),
        Err(error) => Err(error),
    }
}

/// A run takes over every argument as it was given, each whatever the others are, and for those
/// that were not given what is promised: all tables, one file for each, all parts, `snappy` and
/// row groups of 7 MB.
pub proof fn runs_take_over_their_arguments(run: TpchGenBindData, arguments: GenArguments)
    requires
        run.answers(arguments),
    ensures
        run.parts == arguments.parts,
        run.part == arguments.part,
        run.output_dir@ == arguments.output_dir@,
        arguments.sf matches Ok(sf) && run.sf@ == sf@,
        arguments.compression matches Some(codec) ==> run.compression@ == codec@,
        arguments.compression is None ==> run.compression@ == "snappy"@,
        arguments.row_group_bytes matches Some(bytes) ==> run.row_group_bytes == bytes,
        arguments.row_group_bytes is None ==> run.row_group_bytes == 7 * 1024 * 1024,
        arguments.tables is None ==> run.tables@ == table_order(),
        arguments.tables matches Some(names) ==> (if names@.len() == 0 {
            run.tables@ == table_order()
        } else {
            &&& run.tables@.len() == names@.len()
            &&& forall|i: int|
                0 <= i < names@.len() ==> table_with_abbreviation(names@[i]@) == Some(
                    #[trigger] run.tables@[i],
                )
        }),
{
    if let Some(names) = arguments.tables {
        let texts = names@.map_values(|name: String| name@);
        if names@.len() > 0 {
            lists_are_granted_entry_by_entry(texts);
        }
    }
}

/// Two calls that agree in a parameter are answered by runs that agree in it, however much the
/// calls differ otherwise.
pub proof fn parameters_do_not_touch_each_other(
    a: GenArguments,
    b: GenArguments,
    run_a: TpchGenBindData,
    run_b: TpchGenBindData,
)
    requires
        run_a.answers(a),
        run_b.answers(b),
    ensures
        a.parts == b.parts <==> run_a.parts == run_b.parts,
        a.part == b.part <==> run_a.part == run_b.part,
        a.output_dir@ == b.output_dir@ <==> run_a.output_dir@ == run_b.output_dir@,
        a.tables == b.tables ==> run_a.tables@ == run_b.tables@,
        a.compression == b.compression ==> run_a.compression@ == run_b.compression@,
        a.row_group_bytes == b.row_group_bytes ==> run_a.row_group_bytes == run_b.row_group_bytes,
{
}

/// A run is refused if and only if the scale factor is no number, an entry of the list stands for
/// no table or the codec is at fault; the first of these is what the message is about.
pub proof fn runs_are_refused_for_a_reason(arguments: GenArguments)
    ensures
        gen_refusal(arguments) is None <==> arguments.sf is Ok && requested(
            names_view(arguments.tables),
        ) is Ok && (arguments.compression matches Some(codec) ==> compression_fault(
            codec@,
        ) is None),
        arguments.sf matches Err(reason) ==> gen_refusal(arguments) == Some(
            "invalid scale factor: "@ + reason@,
        ),
        arguments.sf is Ok ==> (requested(names_view(arguments.tables)) matches Err(message)
            ==> gen_refusal(arguments) == Some(message)),
        arguments.sf is Ok && requested(names_view(arguments.tables)) is Ok ==> (
        arguments.compression matches Some(codec) ==> (compression_fault(codec@) matches Some(
            reason,
        ) ==> gen_refusal(arguments) == Some("invalid compression: "@ + reason))),
{
}

/// A codec is at fault exactly where the codecs say so, or where its level is left open; what is
/// wrong is then what they say, or the codec as it was spelled.
pub proof fn codecs_are_at_fault_for_a_reason(text: Seq<char>)
    ensures
        !text.contains('(') || text.last() == ')' ==> compression_fault(text)
            == compression_error(text),
        text.contains('(') && text.last() != ')' ==> compression_fault(text) == Some(text),
        invalid_compression(text) == "invalid compression: "@ + text,
{
}

/// The codecs that take a level and those that take none.
pub proof fn codecs_with_and_without_level(text: Seq<char>, digit: char)
    ensures
        is_plain_codec(text) <==> text == "uncompressed"@ || text == "snappy"@ || text == "lz4"@,
        is_leveled_codec(text) <==> text == "gzip"@ || text == "brotli"@ || text == "zstd"@,
        with_level(text, digit) == text + "("@ + seq![digit] + ")"@,
{
    reveal_strlit("(");
    reveal_strlit(")");
    assert(with_level(text, digit) =~= text + "("@ + seq![digit] + ")"@);
}

} // verus!
