//! The logic of a DuckDB extension that generates TPC-H data.
//!
//! Three table functions are served:
//!
//! * `tpch_gen(sf, output_dir, ...)` writes TPC-H Parquet files to disk ([`parquet`]).
//! * `tpch(sf, 'table')` streams the rows of a single TPC-H table ([`scan`], [`produce`]).
//! * `tpch_load(sf, ...)` returns the statements that load the tables ([`load`]).

pub mod chunk;
pub mod generators;
pub mod load;
pub mod once;
pub mod parquet;
pub mod produce;
pub mod pump;
pub mod request;
pub mod rows;
pub mod scan;
pub mod schema;
pub mod shown;
pub mod source;
pub mod table;
