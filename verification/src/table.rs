//! A table: its schema and its stored rows, ordered by an auto-incrementing
//! row id, together with an iterator of row snapshots.

use vstd::prelude::*;

use crate::create::{Column, ColumnV};
use crate::row::{Row, RowV};
use crate::text::clone_vec_string;

verus! {

/// The column information of every column in a table.
pub type ColumnInfo = Vec<Column>;

/// A table: stored rows in ascending row-id order (the row id is the index),
/// and the schema the rows were zipped against.
#[derive(Debug)]
pub struct Table {
    pub rows: Vec<Vec<String>>,
    pub columns: ColumnInfo,
}

/// Mathematical model of a [`Table`].
#[verifier::ext_equal]
pub ghost struct TableV {
    pub rows: Seq<Seq<Seq<char>>>,
    pub columns: Seq<ColumnV>,
}

impl DeepView for Table {
    type V = TableV;

    open spec fn deep_view(&self) -> TableV {
        TableV { rows: self.rows.deep_view(), columns: self.columns.deep_view() }
    }
}

/// A stored row: the values zipped positionally against the schema, silently
/// truncated to the shorter of the two.
pub open spec fn spec_zip_row(columns: Seq<ColumnV>, values: Seq<Seq<char>>) -> Seq<Seq<char>> {
    values.take(crate::row::spec_min(columns.len() as int, values.len() as int))
}

/// Inserting values appends one zipped row; the schema never changes.
pub open spec fn spec_table_insert(t: TableV, values: Seq<Seq<char>>) -> TableV {
    TableV { rows: t.rows.push(spec_zip_row(t.columns, values)), columns: t.columns }
}

/// The row snapshots a table hands out: one per stored row, in ascending-id
/// order, ids dense from zero, each sharing the table's schema.
pub open spec fn spec_table_rows(t: TableV) -> Seq<RowV> {
    Seq::new(t.rows.len(), |i: int| RowV { id: i, columns: t.columns, data: t.rows[i] })
}

impl Table {
    /// Creates a table with the given column definitions and no rows.
    pub fn new(columns: Vec<Column>) -> (t: Table)
        ensures
            t.deep_view() == (TableV {
                rows: Seq::<Seq<Seq<char>>>::empty(),
                columns: columns.deep_view(),
            }),
    {
        let t = Table { rows: Vec::new(), columns };
        proof {
            assert(t.rows.deep_view() =~= Seq::<Seq<Seq<char>>>::empty());
        }
        t
    }

    /// Inserts values (one row) into the table, zipped positionally against
    /// the schema; the new row's id is the number of rows already stored.
    pub fn insert(&mut self, values: Vec<String>)
        ensures
            final(self).deep_view() == spec_table_insert(
                old(self).deep_view(),
                values.deep_view(),
            ),
    {
        let m = if self.columns.len() <= values.len() {
            self.columns.len()
        } else {
            values.len()
        };
        let mut row: Vec<String> = Vec::new();
        let mut i: usize = 0;
        while i < m
            invariant
                i <= m,
                m <= values@.len(),
                m == crate::row::spec_min(self.columns.deep_view().len() as int, values.deep_view().len() as int),
                row.deep_view() =~= values.deep_view().take(i as int),
            decreases m - i,
        {
            let ghost prior = row.deep_view();
            let v = crate::text::clone_string(&values[i]);
            let ghost v_v = v@;
            row.push(v);
            proof {
                assert(row.deep_view() =~= prior.push(v_v));
                assert(row.deep_view() =~= values.deep_view().take(i + 1));
            }
            i = i + 1;
        }
        let ghost prior_rows = self.rows.deep_view();
        let ghost row_v = row.deep_view();
        self.rows.push(row);
        proof {
            assert(self.rows.deep_view() =~= prior_rows.push(row_v));
            assert(self.deep_view() =~= spec_table_insert(old(self).deep_view(), values.deep_view()));
        }
    }

    /// Hands out an iterator of owned row snapshots, in ascending-id order.
    pub fn iter(&self) -> (it: TableIter)
        ensures
            it@ == spec_table_rows(self.deep_view()),
    {
        let n = self.rows.len();
        let mut rows: Vec<Row> = Vec::new();
        let mut j: usize = 0;
        while j < n
            invariant
                j <= n,
                n == self.rows@.len(),
                rows.deep_view() =~= spec_table_rows(self.deep_view()).take(j as int),
            decreases n - j,
        {
            let ghost prior = rows.deep_view();
            let r = Row {
                id: j,
                columns: clone_columns(&self.columns),
                data: clone_vec_string(&self.rows[j]),
            };
            let ghost r_v = r.deep_view();
            rows.push(r);
            proof {
                assert(rows.deep_view() =~= prior.push(r_v));
                assert(rows.deep_view() =~= spec_table_rows(self.deep_view()).take(j + 1));
            }
            j = j + 1;
        }
        proof {
            assert(spec_table_rows(self.deep_view()).take(n as int) =~= spec_table_rows(
                self.deep_view(),
            ));
        }
        TableIter::new(rows)
    }
}

/// An owned copy of a schema, equal column for column.
pub fn clone_columns(v: &Vec<Column>) -> (r: Vec<Column>)
    ensures
        r.deep_view() == v.deep_view(),
{
    let mut r: Vec<Column> = Vec::new();
    let mut i: usize = 0;
    while i < v.len()
        invariant
            i <= v@.len(),
            r.deep_view() =~= v.deep_view().take(i as int),
        decreases v@.len() - i,
    {
        let ghost prior = r.deep_view();
        let c = Column {
            name: crate::text::clone_string(&v[i].name),
            type_info: v[i].type_info,
        };
        let ghost c_v = c.deep_view();
        r.push(c);
        proof {
            assert(r.deep_view() =~= prior.push(c_v));
            assert(r.deep_view() =~= v.deep_view().take(i + 1));
        }
        i = i + 1;
    }
    proof {
        assert(v.deep_view().take(v@.len() as int) =~= v.deep_view());
    }
    r
}

/// An iterator over a table's row snapshots: its view is the rows it has yet
/// to hand out, in order.
#[derive(Debug)]
pub struct TableIter {
    pub rows: Vec<Row>,
}

impl View for TableIter {
    type V = Seq<RowV>;

    open spec fn view(&self) -> Seq<RowV> {
        self.rows.deep_view()
    }
}

impl TableIter {
    /// Wraps a vector of row snapshots as an iterator over all of them.
    pub fn new(rows: Vec<Row>) -> (it: TableIter)
        ensures
            it@ == rows.deep_view(),
    {
        TableIter { rows }
    }

    /// Hands out the next row, or nothing once every row is out.
    pub fn next(&mut self) -> (r: Option<Row>)
        ensures
            old(self)@.len() == 0 ==> r is None && final(self)@ == old(self)@,
            old(self)@.len() > 0 ==> (r matches Option::Some(row) && row.deep_view() == old(
                self,
            )@[0] && final(self)@ == old(self)@.drop_first()),
    {
        if self.rows.len() == 0 {
            None
        } else {
            let row = self.rows.remove(0);
            proof {
                assert(self@ =~= old(self)@.drop_first());
            }
            Some(row)
        }
    }
}

} // verus!
