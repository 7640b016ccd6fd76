//! A row of a query response: an owned, schema-aware snapshot of one stored
//! row.

use vstd::prelude::*;

use crate::create::{Column, ColumnV};
use crate::exec_error::{QErrV, QueryExceptionError};
use crate::text::{clone_string, str_eq};

verus! {

/// One row of a query response: its id, the table's schema, and the stored
/// values in schema order.
#[derive(Debug, PartialEq, Eq)]
pub struct Row {
    pub id: usize,
    pub columns: Vec<Column>,
    pub data: Vec<String>,
}

/// Mathematical model of a [`Row`].
#[verifier::ext_equal]
pub ghost struct RowV {
    pub id: int,
    pub columns: Seq<ColumnV>,
    pub data: Seq<Seq<char>>,
}

impl DeepView for Row {
    type V = RowV;

    open spec fn deep_view(&self) -> RowV {
        RowV {
            id: self.id as int,
            columns: self.columns.deep_view(),
            data: self.data.deep_view(),
        }
    }
}

pub open spec fn spec_min(a: int, b: int) -> int {
    if a <= b {
        a
    } else {
        b
    }
}

/// The value held for a column name among the first `i` stored values: when
/// several zipped columns share the name, the later one wins.
pub open spec fn spec_find_col(
    columns: Seq<ColumnV>,
    data: Seq<Seq<char>>,
    name: Seq<char>,
    i: int,
) -> Option<Seq<char>>
    decreases i,
{
    if i <= 0 {
        Option::None
    } else if columns[i - 1].name == name {
        Option::Some(data[i - 1])
    } else {
        spec_find_col(columns, data, name, i - 1)
    }
}

/// The value a row holds for a column name: only columns zipped against a
/// stored value count, and of columns sharing the name the last wins.
pub open spec fn spec_row_get(r: RowV, name: Seq<char>) -> Option<Seq<char>> {
    spec_find_col(r.columns, r.data, name, spec_min(r.columns.len() as int, r.data.len() as int))
}

impl Row {
    /// Builds a row view from a schema, a row id and the stored values.
    pub fn new(columns: Vec<Column>, id: usize, data: Vec<String>) -> (r: Row)
        ensures
            r.deep_view() == (RowV {
                id: id as int,
                columns: columns.deep_view(),
                data: data.deep_view(),
            }),
    {
        Row { id, columns, data }
    }

    /// The schema shared by every row of the same response.
    pub fn columns(&self) -> (r: &Vec<Column>)
        ensures
            r.deep_view() == self.deep_view().columns,
    {
        &self.columns
    }

    /// Gets a single value from the row; a name absent from the row's schema
    /// is an error.
    pub fn try_get(&self, column: &String) -> (r: Result<String, QueryExceptionError>)
        ensures
            match r {
                Ok(v) => spec_row_get(self.deep_view(), column@) == Option::Some(v@),
                Err(e) => spec_row_get(self.deep_view(), column@) is None && e.deep_view()
                    == QErrV::ColumnDoesNotExists(column@),
            },
    {
        let cols = self.columns.len();
        let vals = self.data.len();
        let mut i: usize = if vals <= cols {
            vals
        } else {
            cols
        };
        while i > 0
            invariant
                i <= self.columns@.len(),
                i <= self.data@.len(),
                spec_row_get(self.deep_view(), column@) == spec_find_col(
                    self.columns.deep_view(),
                    self.data.deep_view(),
                    column@,
                    i as int,
                ),
            decreases i,
        {
            if str_eq(self.columns[i - 1].name.as_str(), column.as_str()) {
                return Ok(clone_string(&self.data[i - 1]));
            }
            i = i - 1;
        }
        Err(QueryExceptionError::ColumnDoesNotExists(clone_string(column)))
    }

    /// Gets a single value from the row, for contexts where the column's
    /// existence was already validated by the schema.
    pub fn get(&self, column: &String) -> (r: String)
        requires
            spec_row_get(self.deep_view(), column@) is Some,
        ensures
            spec_row_get(self.deep_view(), column@) == Option::Some(r@),
    {
        match self.try_get(column) {
            Ok(v) => v,
            Err(_) => unreached(),
        }
    }
}

} // verus!
