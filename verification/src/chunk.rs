//! Chunks of column data: what the table functions hand to DuckDB, one vector per column.

use crate::schema::{columns_view, storage_of, storages, ColumnType, Storage};
use vstd::prelude::*;

verus! {

/// Number of rows packed into one batch. Matches DuckDB's standard vector size so a batch maps
/// 1:1 to an output chunk.
pub const BATCH_SIZE: usize = 2048;

/// One value of a chunk.
pub enum Value {
    Int64(i64),
    Int32(i32),
    Text(Seq<char>),
}

impl Value {
    pub open spec fn storage(self) -> Storage {
        match self {
            Value::Int64(_) => Storage::Int64,
            Value::Int32(_) => Storage::Int32,
            Value::Text(_) => Storage::Text,
        }
    }
}

/// The values of one column, top to bottom.
#[derive(Debug)]
pub enum ColumnData {
    Int64(Vec<i64>),
    Int32(Vec<i32>),
    Text(Vec<String>),
}

impl ColumnData {
    pub open spec fn storage(self) -> Storage {
        match self {
            ColumnData::Int64(_) => Storage::Int64,
            ColumnData::Int32(_) => Storage::Int32,
            ColumnData::Text(_) => Storage::Text,
        }
    }

    pub open spec fn values(self) -> Seq<Value> {
        match self {
            ColumnData::Int64(v) => v@.map_values(|x: i64| Value::Int64(x)),
            ColumnData::Int32(v) => v@.map_values(|x: i32| Value::Int32(x)),
            ColumnData::Text(v) => v@.map_values(|x: String| Value::Text(x@)),
        }
    }

    /// A column without values.
    pub fn empty(storage: Storage) -> (column: ColumnData)
        ensures
            column.storage() == storage,
            column.values() == Seq::<Value>::empty(),
    {
        let column = match storage {
            Storage::Int64 => ColumnData::Int64(Vec::new()),
            Storage::Int32 => ColumnData::Int32(Vec::new()),
            Storage::Text => ColumnData::Text(Vec::new()),
        };
        assert(column.values() =~= Seq::<Value>::empty());
        column
    }
}

/// `value` can answer `row` with a slice that holds `text`.
pub open spec fn picks_text<R, F: Fn(&R) -> &'static str>(
    value: F,
    row: &R,
    text: Seq<char>,
) -> bool {
    exists|slice: &'static str| #[trigger] call_ensures(value, (row,), slice) && slice@ == text
}

/// Column `c` of a row-by-row table.
pub open spec fn column_of(rows: Seq<Seq<Value>>, c: int) -> Seq<Value> {
    Seq::new(rows.len(), |r: int| rows[r][c])
}

/// A column held `before` and holds `after` since its first `n` cells were written: the cells from
/// there on are as they were, and the column has grown only as far as it had to.
pub open spec fn keeps_tail(before: Seq<Value>, after: Seq<Value>, n: int) -> bool {
    &&& after.len() == if n < before.len() {
        before.len() as int
    } else {
        n
    }
    &&& forall|i: int| n <= i < before.len() ==> #[trigger] after[i] == before[i]
}

/// An output chunk: its columns and the number of rows that count.
#[derive(Debug)]
pub struct Chunk {
    pub columns: Vec<ColumnData>,
    pub len: usize,
}

/// A chunk whose columns are those of `rows` holds `rows`.
pub(crate) proof fn filled_columns(chunk: Chunk, rows: Seq<Seq<Value>>)
    requires
        chunk.len == rows.len(),
        chunk.len <= BATCH_SIZE,
        forall|c: int|
            0 <= c < chunk.columns@.len() ==> (#[trigger] chunk.columns@[c]).values() == column_of(
                rows,
                c,
            ),
        forall|r: int| 0 <= r < rows.len() ==> (#[trigger] rows[r]).len() == chunk.columns@.len(),
    ensures
        chunk.wf(),
        chunk.rows() == rows,
{
    assert forall|r: int| 0 <= r < rows.len() implies chunk.rows()[r] == rows[r] by {
        assert(chunk.rows()[r] =~= rows[r]);
    }
    assert(chunk.rows() =~= rows);
}

/// `row` has one value for each of `columns`, stored as the type of the column demands.
pub open spec fn row_conforms(row: Seq<Value>, columns: Seq<(Seq<char>, ColumnType)>) -> bool {
    &&& row.len() == columns.len()
    &&& forall|c: int|
        0 <= c < columns.len() ==> (#[trigger] row[c]).storage() == storage_of(columns[c].1)
}

/// The values of a chunk are stored as the types of its columns demand.
pub proof fn chunk_rows_conform(chunk: Chunk, columns: Seq<(Seq<char>, ColumnType)>)
    requires
        chunk.wf(),
        chunk.storages() == storages(columns),
    ensures
        forall|r: int|
            0 <= r < chunk.rows().len() ==> row_conforms(#[trigger] chunk.rows()[r], columns),
{
    assert(chunk.columns@.len() == chunk.storages().len());
    assert(columns.len() == storages(columns).len());
    assert forall|r: int| 0 <= r < chunk.rows().len() implies row_conforms(
        #[trigger] chunk.rows()[r],
        columns,
    ) by {
        assert forall|c: int| 0 <= c < columns.len() implies (
        #[trigger] chunk.rows()[r][c]).storage() == storage_of(columns[c].1) by {
            let column = chunk.columns@[c];
            assert(chunk.rows()[r][c] == column.values()[r]);
            assert(column.values().len() == chunk.len);
            assert(column.values()[r].storage() == column.storage());
            assert(chunk.storages()[c] == column.storage());
            assert(storages(columns)[c] == storage_of(columns[c].1));
        }
    }
}

/// A cell of a chunk is what stands in the vector of its column, in the place of its row.
pub proof fn cells_are_those_of_the_vectors(chunk: Chunk, r: int, c: int)
    requires
        chunk.wf(),
        0 <= r < chunk.len,
        0 <= c < chunk.columns@.len(),
    ensures
        chunk.rows().len() == chunk.len,
        chunk.rows()[r].len() == chunk.columns@.len(),
        match chunk.columns@[c] {
            ColumnData::Int64(v) => v@.len() == chunk.len && chunk.rows()[r][c] == Value::Int64(
                v@[r],
            ),
            ColumnData::Int32(v) => v@.len() == chunk.len && chunk.rows()[r][c] == Value::Int32(
                v@[r],
            ),
            ColumnData::Text(v) => v@.len() == chunk.len && chunk.rows()[r][c] == Value::Text(
                v@[r]@,
            ),
        },
{
    assert(chunk.columns@[c].values().len() == chunk.len);
}

/// A column whose cells are these 64-bit numbers is a vector of them.
pub(crate) proof fn int64_column(chunk: Chunk, c: int, cells: Seq<i64>)
    requires
        chunk.wf(),
        0 <= c < chunk.columns@.len(),
        chunk.storages()[c] == Storage::Int64,
        chunk.len == cells.len(),
        forall|r: int|
            0 <= r < cells.len() ==> #[trigger] chunk.rows()[r][c] == Value::Int64(cells[r]),
    ensures
        chunk.columns@[c] matches ColumnData::Int64(v) && v@ == cells,
{
    assert(chunk.storages()[c] == chunk.columns@[c].storage());
    assert(chunk.columns@[c].values().len() == chunk.len);
    assert forall|r: int| 0 <= r < cells.len() implies chunk.columns@[c]->Int64_0@[r]
        == cells[r] by {
        assert(chunk.rows()[r][c] == Value::Int64(cells[r]));
        assert(chunk.columns@[c].values()[r] == Value::Int64(cells[r]));
    }
    assert(chunk.columns@[c]->Int64_0@ =~= cells);
}

/// A column whose cells are these 32-bit numbers is a vector of them.
pub(crate) proof fn int32_column(chunk: Chunk, c: int, cells: Seq<i32>)
    requires
        chunk.wf(),
        0 <= c < chunk.columns@.len(),
        chunk.storages()[c] == Storage::Int32,
        chunk.len == cells.len(),
        forall|r: int|
            0 <= r < cells.len() ==> #[trigger] chunk.rows()[r][c] == Value::Int32(cells[r]),
    ensures
        chunk.columns@[c] matches ColumnData::Int32(v) && v@ == cells,
{
    assert(chunk.storages()[c] == chunk.columns@[c].storage());
    assert(chunk.columns@[c].values().len() == chunk.len);
    assert forall|r: int| 0 <= r < cells.len() implies chunk.columns@[c]->Int32_0@[r]
        == cells[r] by {
        assert(chunk.rows()[r][c] == Value::Int32(cells[r]));
        assert(chunk.columns@[c].values()[r] == Value::Int32(cells[r]));
    }
    assert(chunk.columns@[c]->Int32_0@ =~= cells);
}

/// A column whose cells are these texts is a vector of them.
pub(crate) proof fn text_column(chunk: Chunk, c: int, cells: Seq<Seq<char>>)
    requires
        chunk.wf(),
        0 <= c < chunk.columns@.len(),
        chunk.storages()[c] == Storage::Text,
        chunk.len == cells.len(),
        forall|r: int|
            0 <= r < cells.len() ==> #[trigger] chunk.rows()[r][c] == Value::Text(cells[r]),
    ensures
        chunk.columns@[c] matches ColumnData::Text(v) && v@.map_values(|t: String| t@) == cells,
{
    assert(chunk.storages()[c] == chunk.columns@[c].storage());
    assert(chunk.columns@[c].values().len() == chunk.len);
    assert forall|r: int| 0 <= r < cells.len() implies chunk.columns@[c]->Text_0@[r]@
        == cells[r] by {
        assert(chunk.rows()[r][c] == Value::Text(cells[r]));
        assert(chunk.columns@[c].values()[r] == Value::Text(cells[r]));
    }
    assert(chunk.columns@[c]->Text_0@.map_values(|t: String| t@) =~= cells);
}

impl Chunk {
    /// Every column holds exactly the rows that count, and no more of them than one DuckDB
    /// vector takes.
    pub open spec fn wf(self) -> bool {
        &&& self.len <= BATCH_SIZE
        &&& forall|c: int|
            0 <= c < self.columns@.len() ==> (#[trigger] self.columns@[c]).values().len()
                == self.len
    }

    /// How each column is stored.
    pub open spec fn storages(self) -> Seq<Storage> {
        self.columns@.map_values(|column: ColumnData| column.storage())
    }

    /// The value in column `c` of row `r`.
    pub open spec fn value(self, r: int, c: int) -> Value {
        self.columns@[c].values()[r]
    }

    /// The chunk row by row.
    pub open spec fn rows(self) -> Seq<Seq<Value>> {
        Seq::new(
            self.len as nat,
            |r: int| Seq::new(self.columns@.len(), |c: int| self.value(r, c)),
        )
    }

    /// A chunk with the columns of `schema` and no rows.
    pub fn with_columns(schema: &Vec<(&'static str, ColumnType)>) -> (chunk: Chunk)
        ensures
            chunk.wf(),
            chunk.len == 0,
            chunk.storages() == storages(columns_view(schema@)),
    {
        let mut columns: Vec<ColumnData> = Vec::new();
        for i in 0..schema.len()
            invariant
                columns@.len() == i,
                forall|c: int|
                    0 <= c < i ==> (#[trigger] columns@[c]).storage() == storage_of(schema@[c].1),
                forall|c: int|
                    0 <= c < i ==> (#[trigger] columns@[c]).values() == Seq::<Value>::empty(),
        {
            columns.push(ColumnData::empty(schema[i].1.storage()));
        }
        let chunk = Chunk { columns, len: 0 };
        assert(chunk.storages() =~= storages(columns_view(schema@)));
        chunk
    }

    /// The chunk that ends a scan: DuckDB pulls a table function until a chunk has no rows.
    pub fn end_of_scan() -> (chunk: Chunk)
        ensures
            chunk.wf(),
            chunk.len == 0,
            chunk.columns@.len() == 0,
    {
        Chunk { columns: Vec::new(), len: 0 }
    }

    /// Sets the number of rows that count.
    pub fn set_len(&mut self, len: usize)
        ensures
            final(self).len == len,
            final(self).columns == old(self).columns,
    {
        self.len = len;
    }

    /// Writes the top of a 64-bit column: `value` of the first row, then of the second, and so on.
    /// The cells below stay as they are.
    pub fn put_i64<R, F: Fn(&R) -> i64>(&mut self, col: usize, rows: &Vec<R>, value: F)
        requires
            col < old(self).storages().len(),
            old(self).storages()[col as int] == Storage::Int64,
            rows@.len() <= BATCH_SIZE,
            forall|i: int| 0 <= i < rows@.len() ==> call_requires(value, (&#[trigger] rows@[i],)),
        ensures
            final(self).len == old(self).len,
            final(self).storages() == old(self).storages(),
            final(self).columns@ == old(self).columns@.update(
                col as int,
                final(self).columns@[col as int],
            ),
            keeps_tail(
                old(self).columns@[col as int].values(),
                final(self).columns@[col as int].values(),
                rows@.len() as int,
            ),
            final(self).columns@[col as int] matches ColumnData::Int64(values) && {
                &&& values@.len() >= rows@.len()
                &&& forall|i: int|
                    0 <= i < rows@.len() ==> call_ensures(
                        value,
                        (&rows@[i],),
                        #[trigger] values@[i],
                    )
            },
    {
        let ghost before = *self;
        let mut column = ColumnData::empty(Storage::Int64);
        std::mem::swap(&mut self.columns[col], &mut column);
        assert(column.storage() == before.storages()[col as int]);
        if let ColumnData::Int64(cells) = column {
            let ghost old_cells = cells@;
            let mut cells: Vec<i64> = cells;
            for i in 0..rows.len()
                invariant
                    forall|j: int|
                        0 <= j < rows@.len() ==> call_requires(value, (&#[trigger] rows@[j],)),
                    cells@.len() == if i < old_cells.len() {
                        old_cells.len() as int
                    } else {
                        i as int
                    },
                    forall|j: int|
                        0 <= j < i ==> call_ensures(
                        value,
                        (&rows@[j],),
                        #[trigger] cells@[j],
                    ),
                    forall|j: int|
                        i <= j < old_cells.len() ==> #[trigger] cells@[j] == old_cells[j],
            {
                let cell: i64 = value(&rows[i]);
                if i < cells.len() {
                    cells[i] = cell;
                } else {
                    cells.push(cell);
                }
            }
            self.columns[col] = ColumnData::Int64(cells);
        }
        assert(self.storages() =~= before.storages());
        assert(self.columns@ =~= before.columns@.update(col as int, self.columns@[col as int]));
    }

    /// Writes the top of a 32-bit column: `value` of the first row, then of the second, and so on.
    /// The cells below stay as they are.
    pub fn put_i32<R, F: Fn(&R) -> i32>(&mut self, col: usize, rows: &Vec<R>, value: F)
        requires
            col < old(self).storages().len(),
            old(self).storages()[col as int] == Storage::Int32,
            rows@.len() <= BATCH_SIZE,
            forall|i: int| 0 <= i < rows@.len() ==> call_requires(value, (&#[trigger] rows@[i],)),
        ensures
            final(self).len == old(self).len,
            final(self).storages() == old(self).storages(),
            final(self).columns@ == old(self).columns@.update(
                col as int,
                final(self).columns@[col as int],
            ),
            keeps_tail(
                old(self).columns@[col as int].values(),
                final(self).columns@[col as int].values(),
                rows@.len() as int,
            ),
            final(self).columns@[col as int] matches ColumnData::Int32(values) && {
                &&& values@.len() >= rows@.len()
                &&& forall|i: int|
                    0 <= i < rows@.len() ==> call_ensures(
                        value,
                        (&rows@[i],),
                        #[trigger] values@[i],
                    )
            },
    {
        let ghost before = *self;
        let mut column = ColumnData::empty(Storage::Int32);
        std::mem::swap(&mut self.columns[col], &mut column);
        assert(column.storage() == before.storages()[col as int]);
        if let ColumnData::Int32(cells) = column {
            let ghost old_cells = cells@;
            let mut cells: Vec<i32> = cells;
            for i in 0..rows.len()
                invariant
                    forall|j: int|
                        0 <= j < rows@.len() ==> call_requires(value, (&#[trigger] rows@[j],)),
                    cells@.len() == if i < old_cells.len() {
                        old_cells.len() as int
                    } else {
                        i as int
                    },
                    forall|j: int|
                        0 <= j < i ==> call_ensures(
                        value,
                        (&rows@[j],),
                        #[trigger] cells@[j],
                    ),
                    forall|j: int|
                        i <= j < old_cells.len() ==> #[trigger] cells@[j] == old_cells[j],
            {
                let cell: i32 = value(&rows[i]);
                if i < cells.len() {
                    cells[i] = cell;
                } else {
                    cells.push(cell);
                }
            }
            self.columns[col] = ColumnData::Int32(cells);
        }
        assert(self.storages() =~= before.storages());
        assert(self.columns@ =~= before.columns@.update(col as int, self.columns@[col as int]));
    }

    /// Writes the top of a text column from text that lives as long as the program. The cells below
    /// stay as they are.
    pub fn put_str<R, F: Fn(&R) -> &'static str>(&mut self, col: usize, rows: &Vec<R>, value: F)
        requires
            col < old(self).storages().len(),
            old(self).storages()[col as int] == Storage::Text,
            rows@.len() <= BATCH_SIZE,
            forall|i: int| 0 <= i < rows@.len() ==> call_requires(value, (&#[trigger] rows@[i],)),
        ensures
            final(self).len == old(self).len,
            final(self).storages() == old(self).storages(),
            final(self).columns@ == old(self).columns@.update(
                col as int,
                final(self).columns@[col as int],
            ),
            keeps_tail(
                old(self).columns@[col as int].values(),
                final(self).columns@[col as int].values(),
                rows@.len() as int,
            ),
            final(self).columns@[col as int] matches ColumnData::Text(values) && {
                &&& values@.len() >= rows@.len()
                &&& forall|i: int|
                    0 <= i < rows@.len() ==> picks_text(value, &rows@[i], (#[trigger] values@[i])@)
            },
    {
        let ghost before = *self;
        let mut column = ColumnData::empty(Storage::Text);
        std::mem::swap(&mut self.columns[col], &mut column);
        assert(column.storage() == before.storages()[col as int]);
        if let ColumnData::Text(cells) = column {
            let ghost old_cells = cells@;
            let mut cells: Vec<String> = cells;
            for i in 0..rows.len()
                invariant
                    forall|j: int|
                        0 <= j < rows@.len() ==> call_requires(value, (&#[trigger] rows@[j],)),
                    cells@.len() == if i < old_cells.len() {
                        old_cells.len() as int
                    } else {
                        i as int
                    },
                    forall|j: int|
                        0 <= j < i ==> picks_text(value, &rows@[j], (#[trigger] cells@[j])@),
                    forall|j: int|
                        i <= j < old_cells.len() ==> #[trigger] cells@[j] == old_cells[j],
            {
                let text = value(&rows[i]);
                let cell = text.to_owned();
                assert(picks_text(value, &rows@[i as int], text@));
                if i < cells.len() {
                    cells[i] = cell;
                } else {
                    cells.push(cell);
                }
            }
            self.columns[col] = ColumnData::Text(cells);
        }
        assert(self.storages() =~= before.storages());
        assert(self.columns@ =~= before.columns@.update(col as int, self.columns@[col as int]));
    }

    /// Writes the top of a text column from text made for the row. The cells below stay as they
    /// are.
    pub fn put_display<R, F: Fn(&R) -> String>(&mut self, col: usize, rows: &Vec<R>, value: F)
        requires
            col < old(self).storages().len(),
            old(self).storages()[col as int] == Storage::Text,
            rows@.len() <= BATCH_SIZE,
            forall|i: int| 0 <= i < rows@.len() ==> call_requires(value, (&#[trigger] rows@[i],)),
        ensures
            final(self).len == old(self).len,
            final(self).storages() == old(self).storages(),
            final(self).columns@ == old(self).columns@.update(
                col as int,
                final(self).columns@[col as int],
            ),
            keeps_tail(
                old(self).columns@[col as int].values(),
                final(self).columns@[col as int].values(),
                rows@.len() as int,
            ),
            final(self).columns@[col as int] matches ColumnData::Text(values) && {
                &&& values@.len() >= rows@.len()
                &&& forall|i: int|
                    0 <= i < rows@.len() ==> call_ensures(
                        value,
                        (&rows@[i],),
                        #[trigger] values@[i],
                    )
            },
    {
        let ghost before = *self;
        let mut column = ColumnData::empty(Storage::Text);
        std::mem::swap(&mut self.columns[col], &mut column);
        assert(column.storage() == before.storages()[col as int]);
        if let ColumnData::Text(cells) = column {
            let ghost old_cells = cells@;
            let mut cells: Vec<String> = cells;
            for i in 0..rows.len()
                invariant
                    forall|j: int|
                        0 <= j < rows@.len() ==> call_requires(value, (&#[trigger] rows@[j],)),
                    cells@.len() == if i < old_cells.len() {
                        old_cells.len() as int
                    } else {
                        i as int
                    },
                    forall|j: int|
                        0 <= j < i ==> call_ensures(
                        value,
                        (&rows@[j],),
                        #[trigger] cells@[j],
                    ),
                    forall|j: int|
                        i <= j < old_cells.len() ==> #[trigger] cells@[j] == old_cells[j],
            {
                let cell = value(&rows[i]);
                if i < cells.len() {
                    cells[i] = cell;
                } else {
                    cells.push(cell);
                }
            }
            self.columns[col] = ColumnData::Text(cells);
        }
        assert(self.storages() =~= before.storages());
        assert(self.columns@ =~= before.columns@.update(col as int, self.columns@[col as int]));
    }
}

/// The text that is written for a row is the text that was given for it: no letter of it changes.
pub proof fn picked_text_is_the_text_given<R, F: Fn(&R) -> &'static str>(
    value: F,
    row: &R,
    text: Seq<char>,
    given: Seq<char>,
)
    requires
        picks_text(value, row, text),
        forall|slice: &'static str| #[trigger]
            call_ensures(value, (row,), slice) ==> slice@ == given,
    ensures
        text == given,
{
}

/// Writing no cell changes nothing; writing some leaves what is below them; and writing as many as
/// there are, or more, leaves nothing of the column.
pub proof fn writing_keeps_what_is_below(before: Seq<Value>, after: Seq<Value>, n: int)
    requires
        keeps_tail(before, after, n),
        n >= 0,
    ensures
        n == 0 ==> after == before,
        n <= before.len() ==> after.len() == before.len() && after.skip(n) == before.skip(n),
        n >= before.len() ==> after.len() == n,
{
    if n <= before.len() {
        assert(after.skip(n) =~= before.skip(n));
    }
    if n == 0 {
        assert(after =~= before);
    }
}

} // verus!
