//! A small in-memory SQL engine: a verified parser for a restricted SQL
//! dialect (`CREATE TABLE`, `INSERT INTO`, `SELECT ... FROM`) and a verified
//! execution engine over an in-memory table store.

pub mod ast;
pub mod create;
pub mod exec_error;
pub mod execution;
pub mod insert;
pub mod laws;
pub mod parse;
pub mod parse_error;
pub mod row;
pub mod select;
pub mod table;
pub mod text;

pub use crate::ast::{parse_sql_query, SqlQuery};
pub use crate::create::{Column, CreateStatement, SqlTypeInfo};
pub use crate::exec_error::{QueryExceptionError, SQLError};
pub use crate::execution::{ExecResponse, Execution};
pub use crate::insert::InsertStatement;
pub use crate::parse_error::{
    format_parse_error, ExpectKind, FormattedError, FormattedErrorContext, ParseErrorTree, Span,
};
pub use crate::row::Row;
pub use crate::select::SelectStatement;
pub use crate::table::{ColumnInfo, Table, TableIter};
