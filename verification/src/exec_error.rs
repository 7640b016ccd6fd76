//! The two error families: domain-level execution errors, and the union of
//! those with parse diagnostics that the outer pipeline reports.

use vstd::prelude::*;

use crate::parse_error::{FmtErrV, FormattedError};

verus! {

/// An error raised while executing a query against the table store.
#[derive(Debug, PartialEq, Eq)]
pub enum QueryExceptionError {
    TableNotFound(String),
    TableAlreadyExists(String),
    ColumnDoesNotExists(String),
}

/// Mathematical model of a [`QueryExceptionError`].
pub ghost enum QErrV {
    TableNotFound(Seq<char>),
    TableAlreadyExists(Seq<char>),
    ColumnDoesNotExists(Seq<char>),
}

impl DeepView for QueryExceptionError {
    type V = QErrV;

    open spec fn deep_view(&self) -> QErrV {
        match self {
            QueryExceptionError::TableNotFound(n) => QErrV::TableNotFound(n@),
            QueryExceptionError::TableAlreadyExists(n) => QErrV::TableAlreadyExists(n@),
            QueryExceptionError::ColumnDoesNotExists(n) => QErrV::ColumnDoesNotExists(n@),
        }
    }
}

/// An error at any point in the SQL pipeline: either an execution error or a
/// parse diagnostic, so a caller has one surface to handle.
#[derive(Debug)]
pub enum SQLError {
    QueryExceptionError(QueryExceptionError),
    ParsingError(FormattedError),
}

/// Mathematical model of an [`SQLError`].
pub ghost enum SqlErrV {
    QueryExceptionError(QErrV),
    ParsingError(FmtErrV),
}

impl DeepView for SQLError {
    type V = SqlErrV;

    open spec fn deep_view(&self) -> SqlErrV {
        match self {
            SQLError::QueryExceptionError(e) => SqlErrV::QueryExceptionError(e.deep_view()),
            SQLError::ParsingError(e) => SqlErrV::ParsingError(e.deep_view()),
        }
    }
}

impl From<QueryExceptionError> for SQLError {
    fn from(value: QueryExceptionError) -> (r: SQLError) {
        SQLError::QueryExceptionError(value)
    }
}

impl vstd::std_specs::convert::FromSpecImpl<QueryExceptionError> for SQLError {
    open spec fn obeys_from_spec() -> bool {
        true
    }

    open spec fn from_spec(v: QueryExceptionError) -> SQLError {
        SQLError::QueryExceptionError(v)
    }
}

impl From<FormattedError> for SQLError {
    fn from(value: FormattedError) -> (r: SQLError) {
        SQLError::ParsingError(value)
    }
}

impl vstd::std_specs::convert::FromSpecImpl<FormattedError> for SQLError {
    open spec fn obeys_from_spec() -> bool {
        true
    }

    open spec fn from_spec(v: FormattedError) -> SQLError {
        SQLError::ParsingError(v)
    }
}

} // verus!
