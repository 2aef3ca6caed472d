use rusty_tpch::load::{
    bind_tpch_load, create_table_as, load_columns, load_named_parameters, load_parameters,
    LoadScan, TpchLoadBindData,
};
use rusty_tpch::once::RunOnce;
use rusty_tpch::parquet::{
    bind_tpch_gen, gen_answer, gen_columns, gen_finished, gen_named_parameters, gen_parameters,
    gen_step, requested_compression, GenArguments, GenStep, TpchGenBindData,
};
use rusty_tpch::chunk::{Chunk, ColumnData};
use rusty_tpch::request::{requested_tables, ParameterType};
use rusty_tpch::schema::varchar;
use rusty_tpch::table::{all_tables, TpchTable};

fn names(list: &[&str]) -> Option<Vec<String>> {
    Some(list.iter().map(|name| name.to_string()).collect())
}

fn column(chunk: &Chunk, col: usize) -> Vec<String> {
    match &chunk.columns[col] {
        ColumnData::Text(values) => values.clone(),
        other => panic!("column {col} is {other:?}"),
    }
}

fn arguments() -> GenArguments {
    GenArguments {
        sf: Ok("1".to_string()),
        output_dir: "data".to_string(),
        tables: None,
        parts: None,
        part: None,
        compression: None,
        row_group_bytes: None,
    }
}

#[test]
fn no_list_and_an_empty_list_mean_all_tables() {
    assert_eq!(requested_tables(&None), Ok(all_tables()));
    assert_eq!(requested_tables(&names(&[])), Ok(all_tables()));
}

#[test]
fn a_list_is_kept_in_order() {
    assert_eq!(
        requested_tables(&names(&["lineitem", "orders", "n", "orders"])),
        Ok(vec![TpchTable::Lineitem, TpchTable::Orders, TpchTable::Nation, TpchTable::Orders])
    );
}

#[test]
fn the_first_unknown_table_is_reported() {
    assert_eq!(
        requested_tables(&names(&["orders", "order", "bogus"])),
        Err("unknown TPC-H table: order".to_string())
    );
    assert_eq!(
        requested_tables(&names(&["Orders"])),
        Err("unknown TPC-H table: Orders".to_string())
    );
}

#[test]
fn parameters_of_the_functions() {
    assert_eq!(gen_parameters(), vec![ParameterType::Double, ParameterType::Varchar]);
    assert_eq!(
        gen_named_parameters(),
        vec![
            ("tables", ParameterType::VarcharList),
            ("parts", ParameterType::Integer),
            ("part", ParameterType::Integer),
            ("compression", ParameterType::Varchar),
            ("row_group_bytes", ParameterType::Bigint),
        ]
    );
    assert_eq!(gen_columns(), vec![("status", varchar())]);
    assert_eq!(load_parameters(), vec![ParameterType::Double]);
    assert_eq!(load_named_parameters(), vec![("tables", ParameterType::VarcharList)]);
    assert_eq!(load_columns(), vec![("table_name", varchar()), ("statement", varchar())]);
}

#[test]
fn a_run_has_defaults() {
    assert_eq!(
        bind_tpch_gen(arguments()),
        Ok(TpchGenBindData {
            sf: "1".to_string(),
            output_dir: "data".to_string(),
            tables: all_tables(),
            parts: None,
            part: None,
            compression: "snappy".to_string(),
            row_group_bytes: 7340032,
        })
    );
}

#[test]
fn a_run_takes_its_named_parameters() {
    let mut given = arguments();
    given.tables = names(&["orders"]);
    given.parts = Some(4);
    given.part = Some(2);
    given.compression = Some("zstd(3)".to_string());
    given.row_group_bytes = Some(16777216);
    assert_eq!(
        bind_tpch_gen(given),
        Ok(TpchGenBindData {
            sf: "1".to_string(),
            output_dir: "data".to_string(),
            tables: vec![TpchTable::Orders],
            parts: Some(4),
            part: Some(2),
            compression: "zstd(3)".to_string(),
            row_group_bytes: 16777216,
        })
    );
}

#[test]
fn a_run_is_refused_for_the_first_thing_wrong() {
    let mut bad = arguments();
    bad.tables = names(&["bogus"]);
    bad.compression = Some("zstd".to_string());
    assert_eq!(bind_tpch_gen(bad), Err("unknown TPC-H table: bogus".to_string()));

    let mut bad = arguments();
    bad.sf = Err("invalid float literal".to_string());
    bad.tables = names(&["bogus"]);
    assert_eq!(
        bind_tpch_gen(bad),
        Err("invalid scale factor: invalid float literal".to_string())
    );

    let mut bad = arguments();
    bad.compression = Some("zstd".to_string());
    let message = bind_tpch_gen(bad).unwrap_err();
    assert!(message.starts_with("invalid compression: "));
    assert!(message.ends_with("zstd requires a compression level"));
}

#[test]
fn codecs() {
    assert_eq!(requested_compression(None), Ok("snappy".to_string()));
    for codec in ["uncompressed", "snappy", "lz4", "zstd(3)", "gzip(6)", "brotli(5)", "zstd(22)"] {
        assert_eq!(requested_compression(Some(codec.to_string())), Ok(codec.to_string()));
    }
    for codec in ["zstd", "gzip", "brotli", "snappy(1)", "zstd(23)", "zip", "", "gzip(x)"] {
        assert!(requested_compression(Some(codec.to_string())).is_err());
    }
    for codec in ["zstd(", "zstd(3", "(", "zstd(3]", "zstd(\u{e9}"] {
        assert_eq!(
            requested_compression(Some(codec.to_string())),
            Err(format!("invalid compression: {codec}"))
        );
    }
}

#[test]
fn work_is_claimed_once() {
    let mut once = RunOnce::new();
    let claims: Vec<bool> = (0..4).map(|_| once.claim()).collect();
    assert_eq!(claims, vec![true, false, false, false]);
}

#[test]
fn files_are_generated_on_the_first_pull_only() {
    let mut once = RunOnce::new();
    assert!(matches!(gen_step(&mut once), GenStep::Generate));
    for _ in 0..2 {
        match gen_step(&mut once) {
            GenStep::Emit(chunk) => assert_eq!(chunk.len, 0),
            GenStep::Generate => panic!("generated twice"),
        }
    }
}

#[test]
fn the_status_is_one_row() {
    let chunk = gen_finished();
    assert_eq!((chunk.len, chunk.columns.len()), (1, 1));
    assert_eq!(column(&chunk, 0), vec!["Successfully generated TPC-H data"]);
}

#[test]
fn a_run_is_answered_with_the_status_or_its_error() {
    let done: Result<(), String> = Ok(());
    assert_eq!(
        column(&gen_answer(done).unwrap(), 0),
        vec!["Successfully generated TPC-H data"]
    );
    let failed: Result<(), String> = Err("disk full".to_string());
    assert_eq!(gen_answer(failed).unwrap_err(), "disk full");
}

#[test]
fn statement_for_a_table() {
    assert_eq!(
        create_table_as("0.1", TpchTable::Lineitem),
        "CREATE TABLE lineitem AS FROM tpch(0.1, 'lineitem');"
    );
}

#[test]
fn a_script_for_all_tables() {
    let script = bind_tpch_load(Ok("1".to_string()), &None).unwrap();
    let mut scan = LoadScan::new(&script);
    let chunk = scan.step();
    assert_eq!((chunk.len, chunk.columns.len()), (9, 2));
    assert_eq!(
        column(&chunk, 0),
        vec![
            "(settings)", "nation", "region", "part", "supplier", "partsupp", "customer", "orders",
            "lineitem",
        ]
    );
    let statements = column(&chunk, 1);
    assert_eq!(statements[0], "SET preserve_insertion_order = false;");
    assert_eq!(statements[1], "CREATE TABLE nation AS FROM tpch(1, 'nation');");
    assert_eq!(statements[8], "CREATE TABLE lineitem AS FROM tpch(1, 'lineitem');");
    assert_eq!(scan.step().len, 0);
    assert_eq!(scan.step().len, 0);
}

#[test]
fn a_script_for_some_tables() {
    let script = bind_tpch_load(Ok("1".to_string()), &names(&["lineitem", "orders"])).unwrap();
    let chunk = LoadScan::new(&script).step();
    assert_eq!(column(&chunk, 0), vec!["(settings)", "lineitem", "orders"]);
    assert_eq!(column(&chunk, 1)[2], "CREATE TABLE orders AS FROM tpch(1, 'orders');");
}

#[test]
fn a_script_is_refused() {
    assert_eq!(
        bind_tpch_load(Err("cannot parse float from empty string".to_string()), &names(&["x"])),
        Err("invalid scale factor: cannot parse float from empty string".to_string())
    );
    assert_eq!(
        bind_tpch_load(Ok("1".to_string()), &names(&["nation", "x"])),
        Err("unknown TPC-H table: x".to_string())
    );
}

#[test]
fn a_long_script_takes_several_chunks() {
    let script =
        TpchLoadBindData { sf: "1".to_string(), tables: vec![TpchTable::Region; 5000] };
    let mut scan = LoadScan::new(&script);
    let lens: Vec<usize> = (0..5).map(|_| scan.step().len).collect();
    assert_eq!(lens, vec![2048, 2048, 905, 0, 0]);
}
