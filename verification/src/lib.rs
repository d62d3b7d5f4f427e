//! Decoder library for a national traffic-accident statistics dataset.
//!
//! The dataset is distributed as two correlated delimited text files: a
//! primary file with one record per accident and a supplementary file with
//! one record per non-principal involved party.  This crate decodes both
//! files into strongly typed records: fixed-column extraction, date-time and
//! time-of-day assembly, geocoordinate reconstruction from packed
//! degree-minute-second strings, and cross-file identity correlation.

pub mod assemble;
pub mod columns;
pub mod correlate;
pub mod datetime;
pub mod digits;
pub mod errors;
pub mod geo;
pub mod ingest;
pub mod models;
pub mod rows;
pub mod settings;
pub mod table;
pub mod web;
