//! A read-only relational view over the metadata of physical storage chunks.
//!
//! A columnar storage engine keeps, for every physical unit of stored rows
//! (a "chunk"), a record of typed metadata: identifiers, optional flags,
//! optional timestamps, byte sizes and encoded row-key bounds. This crate
//! materializes a snapshot of those records into named, typed, nullable
//! columns that a query layer can scan like an ordinary table. Every column
//! holds exactly one entry per snapshot row, in snapshot order, with a null
//! entry exactly where the source attribute is absent.

pub mod arrow_columns;
pub mod bounds;
pub mod chunk;
pub mod columns;
pub mod errors;
pub mod naming;
pub mod schema;
pub mod system_chunks;
pub mod text;
