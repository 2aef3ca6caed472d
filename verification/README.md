# rusty_tpch

The logic of a DuckDB extension that generates [TPC-H](https://www.tpc.org/tpch/) data, verified
with Verus. It uses the [`tpchgen`](https://github.com/clflushopt/tpchgen-rs) generators and serves
three table functions:

- `tpch(sf, 'table')` streams the rows of a single TPC-H table, so that it can be materialized with
  `CREATE TABLE lineitem AS FROM tpch(1, 'lineitem');`.
- `tpch_gen(sf, output_dir, ...)` writes Parquet files to disk. Optional named parameters are
  `tables`, `parts`, `part`, `compression` (default `snappy`) and `row_group_bytes` (default
  7340032).
- `tpch_load(sf, ...)` returns a load script: the session setting that parallelizes the inserts and
  a `CREATE TABLE ... AS` for each table. The optional named parameter `tables` restricts it.

## Layout

- `src/` is the verified library.
  - `table`, `schema`: the eight tables, their names and their columns.
  - `chunk`, `rows`: column data, and how a batch of rows fills it.
  - `generators`: the calls into `tpchgen`, with what is trusted of them.
  - `source`, `pump`, `produce`: from a generator to the chunks that a scan receives.
  - `request`, `scan`, `parquet`, `load`, `once`: binding and running the table functions.
- `app/` is the extension itself: DuckDB's traits and vectors, threads, files and floating-point
  scale factors.
- `tests/` runs the library with the real generators.

A scale factor reaches the library as the text of a decimal number. What is proved includes that
every row of a partition is handed to the channel exactly once and in order, that a drained scan
yields every row of the table once, whatever the number of threads and however their chunks
interleave, and that every chunk has the columns that the table declares.
