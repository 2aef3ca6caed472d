use rusty_tpch::chunk::{Chunk, ColumnData, BATCH_SIZE};
use rusty_tpch::schema::{bigint, date, varchar, Storage};

#[test]
fn columns_are_written_one_by_one() {
    let mut chunk =
        Chunk::with_columns(&vec![("a", bigint()), ("b", date()), ("c", varchar()), ("d", varchar())]);
    assert_eq!((chunk.len, chunk.columns.len()), (0, 4));

    let rows: Vec<(i64, &'static str)> = vec![(7, "seven"), (-8, "eight")];
    chunk.put_i64(0, &rows, |row: &(i64, &'static str)| row.0 * 100);
    chunk.put_i32(1, &rows, |row: &(i64, &'static str)| row.0 as i32);
    chunk.put_str(2, &rows, |row: &(i64, &'static str)| row.1);
    chunk.put_display(3, &rows, |row: &(i64, &'static str)| format!("#{}", row.0));
    assert_eq!(chunk.len, 0);
    chunk.set_len(rows.len());
    assert_eq!(chunk.len, 2);
    assert!(matches!(&chunk.columns[0], ColumnData::Int64(values) if *values == vec![700, -800]));
    assert!(matches!(&chunk.columns[1], ColumnData::Int32(values) if *values == vec![7, -8]));
    assert!(matches!(&chunk.columns[2], ColumnData::Text(values) if *values == vec!["seven", "eight"]));
    assert!(matches!(&chunk.columns[3], ColumnData::Text(values) if *values == vec!["#7", "#-8"]));
}

#[test]
fn empty_columns_and_chunks() {
    assert_eq!(BATCH_SIZE, 2048);
    assert!(matches!(ColumnData::empty(Storage::Int64), ColumnData::Int64(values) if values.is_empty()));
    assert!(matches!(ColumnData::empty(Storage::Int32), ColumnData::Int32(values) if values.is_empty()));
    assert!(matches!(ColumnData::empty(Storage::Text), ColumnData::Text(values) if values.is_empty()));
    let end = Chunk::end_of_scan();
    assert_eq!((end.len, end.columns.len()), (0, 0));
}

#[test]
fn cells_below_the_written_ones_are_kept() {
    let columns = vec![("a", bigint()), ("b", date()), ("c", varchar()), ("d", varchar())];
    let mut chunk = Chunk::with_columns(&columns);
    // Three cells, then the first one again, then none.
    for rows in [vec![1i64, 2, 3], vec![9], vec![]] {
        chunk.put_i64(0, &rows, |row: &i64| *row);
        chunk.put_i32(1, &rows, |row: &i64| *row as i32);
        chunk.put_str(2, &rows, |row: &i64| if *row == 9 { "nine" } else { "other" });
        chunk.put_display(3, &rows, |row: &i64| format!("<{row}>"));
    }
    assert!(matches!(&chunk.columns[0], ColumnData::Int64(values) if *values == vec![9, 2, 3]));
    assert!(matches!(&chunk.columns[1], ColumnData::Int32(values) if *values == vec![9, 2, 3]));
    assert!(matches!(
        &chunk.columns[2],
        ColumnData::Text(values) if *values == vec!["nine", "other", "other"]
    ));
    assert!(matches!(
        &chunk.columns[3],
        ColumnData::Text(values) if *values == vec!["<9>", "<2>", "<3>"]
    ));
    chunk.put_i64(0, &vec![5i64, 6, 7, 8], |row: &i64| *row);
    assert!(matches!(&chunk.columns[0], ColumnData::Int64(values) if *values == vec![5, 6, 7, 8]));
    assert!(matches!(&chunk.columns[1], ColumnData::Int32(values) if values.len() == 3));
}
