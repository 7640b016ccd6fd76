//! The execution engine: the table store and the statement dispatcher.

use vstd::prelude::*;

use crate::ast::{parse_sql_query, spec_parse_query, QueryV, SqlQuery};
use crate::create::CreateStatement;
use crate::exec_error::{QErrV, QueryExceptionError, SQLError, SqlErrV};
use crate::insert::InsertStatement;
use crate::parse_error::{spec_format, PRes};
use crate::row::{Row, RowV};
use crate::table::{spec_table_insert, spec_table_rows, Table, TableV};
use crate::text::str_eq;

verus! {

/// What executing one statement emits: the selected row views, or a bare
/// status for an insert or a create.
#[derive(Debug, PartialEq, Eq)]
pub enum ExecResponse {
    Select(Vec<Row>),
    Insert,
    Create,
}

/// Mathematical model of an [`ExecResponse`].
pub ghost enum RespV {
    Select(Seq<RowV>),
    Insert,
    Create,
}

impl DeepView for ExecResponse {
    type V = RespV;

    open spec fn deep_view(&self) -> RespV {
        match self {
            ExecResponse::Select(rows) => RespV::Select(rows.deep_view()),
            ExecResponse::Insert => RespV::Insert,
            ExecResponse::Create => RespV::Create,
        }
    }
}

/// One named table of the store.
#[derive(Debug)]
pub struct TableEntry {
    pub name: String,
    pub table: Table,
}

/// Mathematical model of a [`TableEntry`].
#[verifier::ext_equal]
pub ghost struct EntryV {
    pub name: Seq<char>,
    pub table: TableV,
}

impl DeepView for TableEntry {
    type V = EntryV;

    open spec fn deep_view(&self) -> EntryV {
        EntryV { name: self.name@, table: self.table.deep_view() }
    }
}

/// The mapping the store's entries denote: among entries sharing a name, the
/// earliest wins.
pub open spec fn spec_store(entries: Seq<EntryV>) -> Map<Seq<char>, TableV>
    decreases entries.len(),
{
    if entries.len() == 0 {
        Map::empty()
    } else {
        spec_store(entries.drop_first()).insert(entries[0].name, entries[0].table)
    }
}

pub proof fn lemma_store_contains(entries: Seq<EntryV>, n: Seq<char>)
    ensures
        spec_store(entries).contains_key(n) <==> exists|i: int|
            0 <= i < entries.len() && entries[i].name == n,
    decreases entries.len(),
{
    if entries.len() == 0 {
    } else {
        lemma_store_contains(entries.drop_first(), n);
        if entries[0].name == n {
            assert(entries[0].name == n);
        } else {
            if spec_store(entries.drop_first()).contains_key(n) {
                let i = choose|i: int|
                    0 <= i < entries.drop_first().len() && entries.drop_first()[i].name == n;
                assert(entries[i + 1].name == n);
            }
            if exists|i: int| 0 <= i < entries.len() && entries[i].name == n {
                let i = choose|i: int| 0 <= i < entries.len() && entries[i].name == n;
                assert(entries.drop_first()[i - 1].name == n);
            }
        }
    }
}

pub proof fn lemma_store_lookup(entries: Seq<EntryV>, i: int)
    requires
        0 <= i < entries.len(),
        forall|j: int| 0 <= j < i ==> entries[j].name != entries[i].name,
    ensures
        spec_store(entries).contains_key(entries[i].name),
        spec_store(entries)[entries[i].name] == entries[i].table,
    decreases entries.len(),
{
    if i == 0 {
    } else {
        let rest = entries.drop_first();
        assert(forall|j: int| 0 <= j < i - 1 ==> #[trigger] rest[j].name != rest[i - 1].name);
        lemma_store_lookup(rest, i - 1);
    }
}

pub proof fn lemma_store_update(entries: Seq<EntryV>, i: int, t2: TableV)
    requires
        0 <= i < entries.len(),
        forall|j: int| 0 <= j < i ==> entries[j].name != entries[i].name,
    ensures
        spec_store(entries.update(i, EntryV { name: entries[i].name, table: t2 })) == spec_store(
            entries,
        ).insert(entries[i].name, t2),
    decreases entries.len(),
{
    let n = entries[i].name;
    let e2 = EntryV { name: n, table: t2 };
    if i == 0 {
        assert(entries.update(0, e2).drop_first() =~= entries.drop_first());
        assert(spec_store(entries.drop_first()).insert(n, entries[0].table).insert(n, t2)
            =~= spec_store(entries.drop_first()).insert(n, t2));
    } else {
        let rest = entries.drop_first();
        assert(entries.update(i, e2).drop_first() =~= rest.update(i - 1, e2));
        assert(forall|j: int| 0 <= j < i - 1 ==> #[trigger] rest[j].name != rest[i - 1].name);
        assert(rest[i - 1] == entries[i]);
        lemma_store_update(rest, i - 1, t2);
        assert(entries[0].name != n);
        assert(spec_store(entries.drop_first()).insert(n, t2).insert(
            entries[0].name,
            entries[0].table,
        ) =~= spec_store(entries.drop_first()).insert(entries[0].name, entries[0].table).insert(
            n,
            t2,
        ));
    }
}

pub proof fn lemma_store_push(entries: Seq<EntryV>, e: EntryV)
    requires
        forall|j: int| 0 <= j < entries.len() ==> entries[j].name != e.name,
    ensures
        spec_store(entries.push(e)) == spec_store(entries).insert(e.name, e.table),
    decreases entries.len(),
{
    reveal_with_fuel(spec_store, 3);
    if entries.len() == 0 {
        assert(entries.push(e).drop_first() =~= Seq::<EntryV>::empty());
        assert(entries.push(e)[0] == e);
        assert(spec_store(entries) =~= Map::<Seq<char>, TableV>::empty());
    } else {
        let rest = entries.drop_first();
        assert(entries.push(e).drop_first() =~= rest.push(e));
        assert(entries.push(e)[0] == entries[0]);
        assert(forall|j: int| 0 <= j < rest.len() ==> #[trigger] rest[j].name != e.name);
        lemma_store_push(rest, e);
        assert(entries[0].name != e.name);
        assert(spec_store(entries.drop_first()).insert(e.name, e.table).insert(
            entries[0].name,
            entries[0].table,
        ) =~= spec_store(entries.drop_first()).insert(entries[0].name, entries[0].table).insert(
            e.name,
            e.table,
        ));
    }
}

/// What executing one statement against a store yields, and the store it
/// leaves behind: a create unconditionally (re)binds its table name to an
/// empty table with the declared columns; an insert appends one zipped row to
/// the named table; a select reads the named table's row views; an insert or
/// select against an absent name fails and leaves the store unchanged.
pub open spec fn spec_run(store: Map<Seq<char>, TableV>, q: QueryV) -> (Result<RespV, QErrV>, Map<
    Seq<char>,
    TableV,
>) {
    match q {
        QueryV::Select(sel) => if store.contains_key(sel.table) {
            (Result::Ok(RespV::Select(spec_table_rows(store[sel.table]))), store)
        } else {
            (Result::Err(QErrV::TableNotFound(sel.table)), store)
        },
        QueryV::Insert(ins) => if store.contains_key(ins.table) {
            (
                Result::Ok(RespV::Insert),
                store.insert(ins.table, spec_table_insert(store[ins.table], ins.values)),
            )
        } else {
            (Result::Err(QErrV::TableNotFound(ins.table)), store)
        },
        QueryV::Create(cr) => (
            Result::Ok(RespV::Create),
            store.insert(
                cr.table,
                TableV { rows: Seq::empty(), columns: cr.columns },
            ),
        ),
    }
}

/// The table store and the statement dispatcher over it.
#[derive(Debug)]
pub struct Execution {
    pub tables: Vec<TableEntry>,
}

impl View for Execution {
    type V = Map<Seq<char>, TableV>;

    open spec fn view(&self) -> Map<Seq<char>, TableV> {
        spec_store(self.tables.deep_view())
    }
}

impl Execution {
    /// Creates an empty table store.
    pub fn new() -> (r: Execution)
        ensures
            r@ == Map::<Seq<char>, TableV>::empty(),
    {
        let r = Execution { tables: Vec::new() };
        proof {
            assert(r.tables.deep_view() =~= Seq::<EntryV>::empty());
        }
        r
    }

    /// The index of the entry a name denotes: the earliest with that name.
    fn find_table(&self, name: &str) -> (r: Option<usize>)
        ensures
            match r {
                Some(i) => i < self.tables@.len() && self.tables.deep_view()[i as int].name
                    == name@ && forall|j: int|
                    0 <= j < i ==> self.tables.deep_view()[j].name != name@,
                None => forall|j: int|
                    0 <= j < self.tables@.len() ==> self.tables.deep_view()[j].name != name@,
            },
    {
        let n = self.tables.len();
        let mut i: usize = 0;
        while i < n
            invariant
                i <= n,
                n == self.tables@.len(),
                forall|j: int| 0 <= j < i ==> self.tables.deep_view()[j].name != name@,
            decreases n - i,
        {
            if str_eq(self.tables[i].name.as_str(), name) {
                return Some(i);
            }
            i = i + 1;
        }
        None
    }

    /// Executes one parsed statement against the store.
    pub fn run(&mut self, query: SqlQuery) -> (res: Result<ExecResponse, QueryExceptionError>)
        ensures
            ({
                let (r, st) = spec_run(old(self)@, query.deep_view());
                &&& final(self)@ == st
                &&& match (res, r) {
                    (Ok(a), Result::Ok(b)) => a.deep_view() == b,
                    (Err(a), Result::Err(b)) => a.deep_view() == b,
                    _ => false,
                }
            }),
    {
        match query {
            SqlQuery::Select(select) => {
                let table = select.table;
                match self.find_table(table.as_str()) {
                    None => {
                        proof {
                            lemma_store_contains(self.tables.deep_view(), table@);
                        }
                        Err(QueryExceptionError::TableNotFound(table))
                    },
                    Some(i) => {
                        proof {
                            lemma_store_contains(self.tables.deep_view(), table@);
                            lemma_store_lookup(self.tables.deep_view(), i as int);
                        }
                        let mut it = self.tables[i].table.iter();
                        let ghost total = it@;
                        let mut rows: Vec<Row> = Vec::new();
                        let mut done = false;
                        while !done
                            invariant
                                rows.deep_view() + it@ == total,
                                done ==> it@.len() == 0,
                            decreases it@.len() + (if done {
                                0int
                            } else {
                                1int
                            }),
                        {
                            let ghost prior = rows.deep_view();
                            let ghost remaining = it@;
                            match it.next() {
                                Some(row) => {
                                    let ghost row_v = row.deep_view();
                                    rows.push(row);
                                    proof {
                                        assert(rows.deep_view() =~= prior.push(row_v));
                                        assert(rows.deep_view() + it@ =~= total);
                                    }
                                },
                                None => {
                                    done = true;
                                },
                            }
                        }
                        proof {
                            assert(rows.deep_view() =~= total);
                        }
                        Ok(ExecResponse::Select(rows))
                    },
                }
            },
            SqlQuery::Insert(insert) => {
                let InsertStatement { table, values } = insert;
                match self.find_table(table.as_str()) {
                    None => {
                        proof {
                            lemma_store_contains(self.tables.deep_view(), table@);
                        }
                        Err(QueryExceptionError::TableNotFound(table))
                    },
                    Some(i) => {
                        let ghost entries0 = self.tables.deep_view();
                        let ghost vals_v = values.deep_view();
                        proof {
                            lemma_store_contains(entries0, table@);
                            lemma_store_lookup(entries0, i as int);
                        }
                        let mut entry = self.tables.remove(i);
                        entry.table.insert(values);
                        let ghost entry_v = entry.deep_view();
                        self.tables.insert(i, entry);
                        proof {
                            assert(self.tables.deep_view() =~= entries0.update(i as int, entry_v));
                            assert(entry_v == (EntryV {
                                name: entries0[i as int].name,
                                table: spec_table_insert(entries0[i as int].table, vals_v),
                            }));
                            lemma_store_update(
                                entries0,
                                i as int,
                                spec_table_insert(entries0[i as int].table, vals_v),
                            );
                        }
                        Ok(ExecResponse::Insert)
                    },
                }
            },
            SqlQuery::Create(create) => {
                let CreateStatement { table, columns } = create;
                let new_table = Table::new(columns);
                let ghost new_table_v = new_table.deep_view();
                let ghost entries0 = self.tables.deep_view();
                match self.find_table(table.as_str()) {
                    Some(i) => {
                        proof {
                            lemma_store_lookup(entries0, i as int);
                        }
                        let mut entry = self.tables.remove(i);
                        entry.table = new_table;
                        let ghost entry_v = entry.deep_view();
                        self.tables.insert(i, entry);
                        proof {
                            assert(self.tables.deep_view() =~= entries0.update(i as int, entry_v));
                            assert(entry_v == (EntryV {
                                name: entries0[i as int].name,
                                table: new_table_v,
                            }));
                            lemma_store_update(entries0, i as int, new_table_v);
                        }
                        Ok(ExecResponse::Create)
                    },
                    None => {
                        let entry = TableEntry { name: table, table: new_table };
                        let ghost entry_v = entry.deep_view();
                        self.tables.push(entry);
                        proof {
                            assert(self.tables.deep_view() =~= entries0.push(entry_v));
                            lemma_store_push(entries0, entry_v);
                        }
                        Ok(ExecResponse::Create)
                    },
                }
            },
        }
    }

    /// Parses one query and executes it: the single call a front end needs.
    pub fn parse_and_run(&mut self, query: &str) -> (res: Result<ExecResponse, SQLError>)
        ensures
            match spec_parse_query(query@) {
                PRes::Failed(e) => final(self)@ == old(self)@ && (res matches Err(err)
                    && err.deep_view() == SqlErrV::ParsingError(spec_format(query@, e))),
                PRes::Parsed(_, q) => ({
                    let (r, st) = spec_run(old(self)@, q);
                    &&& final(self)@ == st
                    &&& match (res, r) {
                        (Ok(a), Result::Ok(b)) => a.deep_view() == b,
                        (Err(a), Result::Err(b)) => a.deep_view() == SqlErrV::QueryExceptionError(
                            b,
                        ),
                        _ => false,
                    }
                }),
            },
    {
        match parse_sql_query(query) {
            Err(fe) => Err(SQLError::ParsingError(fe)),
            Ok(q) => match self.run(q) {
                Ok(r) => Ok(r),
                Err(e) => Err(SQLError::QueryExceptionError(e)),
            },
        }
    }
}

impl Default for Execution {
    /// The default store is empty.
    fn default() -> (r: Execution)
        ensures
            r@ == Map::<Seq<char>, TableV>::empty(),
    {
        Execution::new()
    }
}

} // verus!
