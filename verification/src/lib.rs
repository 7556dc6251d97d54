//! Turns a delimited text table into subject-predicate-object statements.
//!
//! Every row and every set of columns gets an identifier derived from its
//! content, so importing the same table twice yields the same statements.
//!
//! - [`encoding`] rejects input that is not UTF-8.
//! - [`reader`] reads the records of the table.
//! - [`header`] resolves the columns from the first record.
//! - [`digest`] and [`order`] compute the hashes of rows and of column sets.
//! - [`schema`] describes the shape of a table; [`emit`] states the table, its
//!   columns and its rows.
//! - [`plan`] puts the statements of an import in order; [`sink`] hands them to
//!   the store's builders; [`import`] does both.
//! - [`laws`] holds what is proved of every import.

pub mod digest;
pub mod emit;
pub mod encoding;
pub mod error;
pub mod escape;
pub mod header;
pub mod import;
pub mod laws;
pub mod literal;
pub mod order;
pub mod plan;
pub mod reader;
pub mod schema;
pub mod sink;
pub mod text;
pub mod triple;
pub mod vocab;
