//! Laws of the execution engine, stated and proved over its mathematical
//! model.

use vstd::prelude::*;

use crate::ast::{spec_parse_query, spec_query, spec_statement, QueryV};
use crate::create::{
    spec_cols_more, spec_column, spec_create, spec_sql_type, ColumnV, CreateV, SqlTypeInfo,
};
use crate::parse::{
    is_ident_char, is_space, lower_code, match_tag_nc, spec_identifier, spec_ident_end,
    spec_skip_ws, spec_tag_nc, spec_ws1,
};
use crate::parse_error::PRes;
use crate::exec_error::QErrV;
use crate::execution::{spec_run, RespV};
use crate::insert::InsertV;
use crate::row::{spec_find_col, spec_min, spec_row_get, RowV};
use crate::select::SelectV;
use crate::table::{spec_table_insert, spec_table_rows, spec_zip_row, TableV};

verus! {

/// Row ids are dense, starting at zero: a table's i-th row view carries id i.
pub proof fn lemma_row_ids_dense(t: TableV, i: int)
    requires
        0 <= i < spec_table_rows(t).len(),
    ensures
        spec_table_rows(t)[i].id == i,
{
}

/// Inserting assigns the next id: the new row view appears at the end, its id
/// is the old row count, and the earlier row views are unchanged. Each
/// table's ids are independent, since the insert touches one table alone.
pub proof fn lemma_insert_assigns_next_id(t: TableV, values: Seq<Seq<char>>)
    ensures
        spec_table_rows(spec_table_insert(t, values)).len() == spec_table_rows(t).len() + 1,
        spec_table_rows(spec_table_insert(t, values))[t.rows.len() as int] == (RowV {
            id: t.rows.len() as int,
            columns: t.columns,
            data: spec_zip_row(t.columns, values),
        }),
        forall|i: int|
            0 <= i < t.rows.len() ==> #[trigger] spec_table_rows(spec_table_insert(t, values))[i]
                == spec_table_rows(t)[i],
{
}

/// Reading is idempotent: a select leaves the store unchanged, and running
/// the same select again returns the identical row sequence.
pub proof fn lemma_select_idempotent(store: Map<Seq<char>, TableV>, q: QueryV)
    requires
        q is Select,
    ensures
        ({
            let (r1, s1) = spec_run(store, q);
            &&& s1 == store
            &&& spec_run(s1, q) == (r1, s1)
        }),
{
}

/// A select or insert against an undeclared table fails with the
/// table-not-found error naming that table, and leaves the store unchanged.
pub proof fn lemma_missing_table(store: Map<Seq<char>, TableV>, q: QueryV)
    requires
        match q {
            QueryV::Select(sel) => !store.contains_key(sel.table),
            QueryV::Insert(ins) => !store.contains_key(ins.table),
            QueryV::Create(_) => false,
        },
    ensures
        spec_run(store, q).1 == store,
        match q {
            QueryV::Select(sel) => spec_run(store, q).0 == Result::<RespV, QErrV>::Err(
                QErrV::TableNotFound(sel.table),
            ),
            QueryV::Insert(ins) => spec_run(store, q).0 == Result::<RespV, QErrV>::Err(
                QErrV::TableNotFound(ins.table),
            ),
            QueryV::Create(_) => true,
        },
{
}

/// Round trip: creating a table, inserting values into it, then selecting
/// from it yields exactly one row view, with id zero, the declared schema,
/// and the values zipped against that schema.
pub proof fn lemma_create_insert_select(
    store: Map<Seq<char>, TableV>,
    name: Seq<char>,
    cols: Seq<ColumnV>,
    vals: Seq<Seq<char>>,
    fields: Seq<Seq<char>>,
)
    ensures
        ({
            let s1 = spec_run(store, QueryV::Create(CreateV { table: name, columns: cols })).1;
            let s2 = spec_run(s1, QueryV::Insert(InsertV { table: name, values: vals })).1;
            let r = spec_run(s2, QueryV::Select(SelectV { table: name, fields })).0;
            r == Result::<RespV, QErrV>::Ok(
                RespV::Select(
                    seq![RowV { id: 0, columns: cols, data: spec_zip_row(cols, vals) }],
                ),
            )
        }),
{
    let s1 = spec_run(store, QueryV::Create(CreateV { table: name, columns: cols })).1;
    let s2 = spec_run(s1, QueryV::Insert(InsertV { table: name, values: vals })).1;
    let t2 = s2[name];
    assert(t2.rows =~= Seq::<Seq<Seq<char>>>::empty().push(spec_zip_row(cols, vals)));
    assert(spec_table_rows(t2) =~= seq![
        RowV { id: 0, columns: cols, data: spec_zip_row(cols, vals) },
    ]);
}

proof fn lemma_find_col_at(
    columns: Seq<ColumnV>,
    data: Seq<Seq<char>>,
    name: Seq<char>,
    i: int,
    k: int,
)
    requires
        0 <= i < k,
        columns[i].name == name,
        forall|j: int| i < j < k ==> #[trigger] columns[j].name != name,
    ensures
        spec_find_col(columns, data, name, k) == Option::Some(data[i]),
    decreases k,
{
    if k - 1 > i {
        lemma_find_col_at(columns, data, name, i, k - 1);
    }
}

/// The round-trip read of one value: in a row inserted as `values` zipped
/// against the schema, reading a column name yields the value inserted at
/// that column's position, provided no later column reuses the name.
pub proof fn lemma_round_trip_get(cols: Seq<ColumnV>, vals: Seq<Seq<char>>, i: int)
    requires
        0 <= i < spec_min(cols.len() as int, vals.len() as int),
        forall|j: int|
            i < j < spec_min(cols.len() as int, vals.len() as int) ==> #[trigger] cols[j].name
                != cols[i].name,
    ensures
        spec_row_get(
            RowV { id: 0, columns: cols, data: spec_zip_row(cols, vals) },
            cols[i].name,
        ) == Option::Some(vals[i]),
{
    let data = spec_zip_row(cols, vals);
    let k = spec_min(cols.len() as int, data.len() as int);
    assert(data.len() == spec_min(cols.len() as int, vals.len() as int));
    lemma_find_col_at(cols, data, cols[i].name, i, k);
}

/// A valid identifier: one or more identifier characters.
pub open spec fn valid_ident(s: Seq<char>) -> bool {
    s.len() > 0 && forall|i: int| 0 <= i < s.len() ==> is_ident_char(#[trigger] s[i])
}

proof fn lemma_ident_end_run(s: Seq<char>, pos: int, k: int)
    requires
        0 <= pos,
        0 <= k,
        pos + k <= s.len(),
        forall|j: int| 0 <= j < k ==> is_ident_char(#[trigger] s[pos + j]),
        pos + k == s.len() || !is_ident_char(s[pos + k]),
    ensures
        spec_ident_end(s, pos) == pos + k,
    decreases k,
{
    if k > 0 {
        assert(is_ident_char(s[pos + 0]));
        assert forall|j: int| 0 <= j < k - 1 implies is_ident_char(#[trigger] s[pos + 1 + j]) by {
            assert(is_ident_char(s[pos + (j + 1)]));
        }
        lemma_ident_end_run(s, pos + 1, k - 1);
    }
}

/// An identifier rendered at `pos`, ended by a non-identifier character, is
/// parsed exactly.
proof fn lemma_identifier_at(s: Seq<char>, pos: int, id: Seq<char>)
    requires
        0 <= pos,
        pos + id.len() <= s.len(),
        valid_ident(id),
        s.subrange(pos, pos + id.len()) == id,
        pos + id.len() == s.len() || !is_ident_char(s[pos + id.len()]),
    ensures
        spec_identifier(s, pos) == PRes::Parsed(pos + id.len() as int, id),
{
    assert forall|j: int| 0 <= j < id.len() implies is_ident_char(#[trigger] s[pos + j]) by {
        assert(s.subrange(pos, pos + id.len())[j] == s[pos + j]);
        assert(is_ident_char(id[j]));
    }
    lemma_ident_end_run(s, pos, id.len() as int);
}

/// A keyword rendered at `pos`, letter for letter, is matched.
proof fn lemma_tag_at(s: Seq<char>, pos: int, tag: Seq<char>)
    requires
        0 <= pos,
        pos + tag.len() <= s.len(),
        s.subrange(pos, pos + tag.len()) == tag,
    ensures
        spec_tag_nc(s, pos, tag) == PRes::Parsed(pos + tag.len() as int, ()),
{
    assert forall|i: int|
        0 <= i < tag.len() implies lower_code(s[pos + i]) == lower_code(#[trigger] tag[i]) by {
        assert(s.subrange(pos, pos + tag.len())[i] == s[pos + i]);
    }
}

/// A single space followed by a non-space consumes exactly one position.
proof fn lemma_ws1_single(s: Seq<char>, pos: int)
    requires
        0 <= pos < s.len(),
        is_space(s[pos]),
        pos + 1 == s.len() || !is_space(s[pos + 1]),
    ensures
        spec_ws1(s, pos) == PRes::Parsed(pos + 1, ()),
{
}

/// The canonical text of a column type.
pub open spec fn render_type(t: SqlTypeInfo) -> Seq<char> {
    match t {
        SqlTypeInfo::String => "string"@,
        SqlTypeInfo::Int => "int"@,
    }
}

/// Two texts of the same length whose characters agree without regard to
/// ASCII case; on characters that are not ASCII letters this is plain
/// equality.
pub open spec fn eq_nc(a: Seq<char>, b: Seq<char>) -> bool {
    a.len() == b.len() && forall|i: int|
        0 <= i < a.len() ==> lower_code(#[trigger] a[i]) == lower_code(b[i])
}

/// The text of one column definition, with the given spelling of its type
/// keyword.
pub open spec fn render_column_with(c: ColumnV, spell: Seq<char>) -> Seq<char> {
    c.name + " "@ + spell
}

/// The text continuing a column list: a comma and a space before each
/// further column definition, each type keyword in its given spelling.
pub open spec fn render_cols_tail_with(rest: Seq<ColumnV>, spells: Seq<Seq<char>>) -> Seq<char>
    decreases rest.len(),
{
    if rest.len() == 0 {
        Seq::empty()
    } else {
        ", "@ + render_column_with(rest[0], spells[0]) + render_cols_tail_with(
            rest.drop_first(),
            spells.drop_first(),
        )
    }
}

/// The text of a comma-separated column list, each type keyword in its given
/// spelling.
pub open spec fn render_columns_with(cols: Seq<ColumnV>, spells: Seq<Seq<char>>) -> Seq<char> {
    if cols.len() == 0 {
        Seq::empty()
    } else {
        render_column_with(cols[0], spells[0]) + render_cols_tail_with(
            cols.drop_first(),
            spells.drop_first(),
        )
    }
}

/// The canonical lower-case spelling of each column's type keyword.
pub open spec fn canonical_spells(cols: Seq<ColumnV>) -> Seq<Seq<char>> {
    Seq::new(cols.len(), |i: int| render_type(cols[i].type_info))
}

/// The text of a whole create statement: the two leading keywords in the
/// given spelling, then the table name and the column list.
pub open spec fn render_create_with(
    pre: Seq<char>,
    name: Seq<char>,
    cols: Seq<ColumnV>,
    spells: Seq<Seq<char>>,
) -> Seq<char> {
    pre + name + " ("@ + render_columns_with(cols, spells) + ")"@
}

/// The canonical text of a whole create statement.
pub open spec fn render_create(name: Seq<char>, cols: Seq<ColumnV>) -> Seq<char> {
    render_create_with("create table "@, name, cols, canonical_spells(cols))
}

/// A keyword rendered at `pos` in any ASCII case is matched.
proof fn lemma_tag_at_nc(s: Seq<char>, pos: int, spell: Seq<char>, tag: Seq<char>)
    requires
        0 <= pos,
        pos + spell.len() <= s.len(),
        eq_nc(spell, tag),
        s.subrange(pos, pos + spell.len()) == spell,
    ensures
        spec_tag_nc(s, pos, tag) == PRes::Parsed(pos + tag.len() as int, ()),
{
    assert forall|i: int|
        0 <= i < tag.len() implies lower_code(s[pos + i]) == lower_code(#[trigger] tag[i]) by {
        assert(s.subrange(pos, pos + spell.len())[i] == s[pos + i]);
        assert(lower_code(spell[i]) == lower_code(tag[i]));
    }
}

proof fn lemma_sql_type_at(s: Seq<char>, pos: int, t: SqlTypeInfo, spell: Seq<char>)
    requires
        0 <= pos,
        eq_nc(spell, render_type(t)),
        pos + spell.len() <= s.len(),
        s.subrange(pos, pos + spell.len()) == spell,
    ensures
        spec_sql_type(s, pos) == PRes::Parsed(pos + render_type(t).len() as int, t),
{
    reveal_strlit("string");
    reveal_strlit("int");
    match t {
        SqlTypeInfo::String => {
            lemma_tag_at_nc(s, pos, spell, "string"@);
        },
        SqlTypeInfo::Int => {
            assert(s[pos] == spell[0]) by {
                assert(s.subrange(pos, pos + spell.len())[0] == s[pos]);
            }
            assert(lower_code(spell[0]) == lower_code("int"@[0]));
            assert(!match_tag_nc(s, pos, "string"@)) by {
                if match_tag_nc(s, pos, "string"@) {
                    assert(lower_code(s[pos + 0]) == lower_code("string"@[0]));
                }
            }
            lemma_tag_at_nc(s, pos, spell, "int"@);
        },
    }
}

proof fn lemma_column_at(s: Seq<char>, pos: int, c: ColumnV, spell: Seq<char>)
    requires
        0 <= pos,
        valid_ident(c.name),
        eq_nc(spell, render_type(c.type_info)),
        pos + render_column_with(c, spell).len() <= s.len(),
        s.subrange(pos, pos + render_column_with(c, spell).len()) == render_column_with(c, spell),
    ensures
        spec_column(s, pos) == PRes::Parsed(
            pos + render_column_with(c, spell).len() as int,
            c,
        ),
{
    reveal_strlit(" ");
    reveal_strlit("string");
    reveal_strlit("int");
    let rc = render_column_with(c, spell);
    let n = c.name.len() as int;
    assert forall|j: int| 0 <= j < rc.len() implies #[trigger] s[pos + j] == rc[j] by {
        assert(s.subrange(pos, pos + rc.len())[j] == s[pos + j]);
    }
    assert(s.subrange(pos, pos + n) =~= c.name);
    assert(s[pos + n] == ' ');
    lemma_identifier_at(s, pos, c.name);
    assert((c.name + " "@).len() == n + 1);
    assert(rc[n + 1] == spell[0]);
    assert(s[pos + n + 1] == rc[n + 1]) by {
        assert(s.subrange(pos, pos + rc.len())[n + 1] == s[pos + n + 1]);
    }
    assert(lower_code(spell[0]) == lower_code(render_type(c.type_info)[0]));
    assert(!is_space(s[pos + n + 1]));
    lemma_ws1_single(s, pos + n);
    assert forall|j: int|
        0 <= j < spell.len() implies s.subrange(pos + n + 1, pos + rc.len())[j]
            == #[trigger] spell[j] by {
        assert(s[pos + n + 1 + j] == rc[n + 1 + j]);
    }
    assert(s.subrange(pos + n + 1, pos + rc.len()) =~= spell);
    lemma_sql_type_at(s, pos + n + 1, c.type_info, spell);
}

proof fn lemma_cols_more_at(
    s: Seq<char>,
    pos: int,
    acc: Seq<ColumnV>,
    rest: Seq<ColumnV>,
    spells: Seq<Seq<char>>,
)
    requires
        0 <= pos,
        spells.len() == rest.len(),
        forall|i: int| 0 <= i < rest.len() ==> valid_ident(#[trigger] rest[i].name),
        forall|i: int|
            0 <= i < rest.len() ==> eq_nc(#[trigger] spells[i], render_type(rest[i].type_info)),
        pos + render_cols_tail_with(rest, spells).len() < s.len(),
        s.subrange(pos, pos + render_cols_tail_with(rest, spells).len()) == render_cols_tail_with(
            rest,
            spells,
        ),
        s[pos + render_cols_tail_with(rest, spells).len()] == ')',
    ensures
        spec_cols_more(s, pos, acc) == (
            pos + render_cols_tail_with(rest, spells).len() as int,
            acc + rest,
        ),
    decreases rest.len(),
{
    reveal_strlit(", ");
    let rt = render_cols_tail_with(rest, spells);
    if rest.len() == 0 {
        assert(s[pos] == ')');
        assert(spec_skip_ws(s, pos) == pos);
        assert(acc + rest =~= acc);
    } else {
        let rc = render_column_with(rest[0], spells[0]);
        let rt2 = render_cols_tail_with(rest.drop_first(), spells.drop_first());
        assert(rt == ", "@ + rc + rt2);
        assert((", "@ + rc).len() == 2 + rc.len());
        assert forall|j: int| 0 <= j < rt.len() implies #[trigger] s[pos + j] == rt[j] by {
            assert(s.subrange(pos, pos + rt.len())[j] == s[pos + j]);
        }
        assert(s[pos + 0] == rt[0]);
        assert(rt[0] == ", "@[0]);
        assert(s[pos] == ',');
        assert(s[pos + 1] == rt[1]);
        assert(rt[1] == ", "@[1]);
        assert(s[pos + 1] == ' ');
        assert(s[pos + 2] == rt[2]);
        assert(rt[2] == rc[0]);
        assert(rc[0] == rest[0].name[0]);
        assert(is_ident_char(s[pos + 2]));
        assert(spec_skip_ws(s, pos) == pos);
        assert(spec_skip_ws(s, pos + 1) == pos + 2) by {
            reveal_with_fuel(spec_skip_ws, 3);
        }
        assert forall|j: int|
            0 <= j < rc.len() implies s.subrange(pos + 2, pos + 2 + rc.len())[j]
                == #[trigger] rc[j] by {
            assert(s[pos + 2 + j] == rt[2 + j]);
        }
        assert(s.subrange(pos + 2, pos + 2 + rc.len()) =~= rc);
        assert(eq_nc(spells[0], render_type(rest[0].type_info)));
        lemma_column_at(s, pos + 2, rest[0], spells[0]);
        let p3 = pos + 2 + rc.len() as int;
        assert forall|j: int|
            0 <= j < rt2.len() implies s.subrange(p3, p3 + rt2.len())[j] == #[trigger] rt2[j] by {
            assert(s[p3 + j] == rt[2 + rc.len() + j]);
        }
        assert(s.subrange(p3, p3 + rt2.len()) =~= rt2);
        assert(s[p3 + rt2.len()] == ')');
        assert forall|i: int|
            0 <= i < rest.drop_first().len() implies valid_ident(
            #[trigger] rest.drop_first()[i].name) by {
            assert(rest.drop_first()[i] == rest[i + 1]);
        }
        assert forall|i: int|
            0 <= i < rest.drop_first().len() implies eq_nc(
            #[trigger] spells.drop_first()[i],
            render_type(rest.drop_first()[i].type_info),
        ) by {
            assert(spells.drop_first()[i] == spells[i + 1]);
            assert(rest.drop_first()[i] == rest[i + 1]);
            assert(eq_nc(spells[i + 1], render_type(rest[i + 1].type_info)));
        }
        lemma_cols_more_at(s, p3, acc.push(rest[0]), rest.drop_first(), spells.drop_first());
        assert(acc.push(rest[0]) + rest.drop_first() =~= acc + rest);
    }
}

proof fn lemma_create_at(
    s: Seq<char>,
    pos: int,
    pre: Seq<char>,
    name: Seq<char>,
    cols: Seq<ColumnV>,
    spells: Seq<Seq<char>>,
)
    requires
        0 <= pos,
        eq_nc(pre, "create table "@),
        valid_ident(name),
        cols.len() >= 1,
        spells.len() == cols.len(),
        forall|i: int| 0 <= i < cols.len() ==> valid_ident(#[trigger] cols[i].name),
        forall|i: int|
            0 <= i < cols.len() ==> eq_nc(#[trigger] spells[i], render_type(cols[i].type_info)),
        pos + render_create_with(pre, name, cols, spells).len() <= s.len(),
        s.subrange(pos, pos + render_create_with(pre, name, cols, spells).len())
            == render_create_with(pre, name, cols, spells),
    ensures
        spec_create(s, pos) == PRes::Parsed(
            pos + render_create_with(pre, name, cols, spells).len() as int,
            CreateV { table: name, columns: cols },
        ),
{
    reveal_strlit("create table ");
    reveal_strlit("create");
    reveal_strlit("table");
    reveal_strlit(" (");
    reveal_strlit(")");
    let rc = render_create_with(pre, name, cols, spells);
    let rcols = render_columns_with(cols, spells);
    let n = name.len() as int;
    assert(pre.len() == 13);
    assert(rc.len() == 16 + n + rcols.len());
    assert forall|j: int| 0 <= j < rc.len() implies #[trigger] s[pos + j] == rc[j] by {
        assert(s.subrange(pos, pos + rc.len())[j] == s[pos + j]);
    }
    assert forall|j: int| 0 <= j < 13 implies #[trigger] rc[j] == pre[j] by {}
    assert forall|j: int| 0 <= j < n implies #[trigger] rc[13 + j] == name[j] by {}
    assert(rc[13 + n] == " ("@[0]);
    assert(rc[14 + n] == " ("@[1]);
    assert forall|j: int| 0 <= j < rcols.len() implies #[trigger] rc[15 + n + j] == rcols[j] by {}
    assert(rc[15 + n + rcols.len()] == ')');
    // `create`, in whatever case `pre` spells it
    assert forall|j: int|
        0 <= j < 6 implies s.subrange(pos, pos + 6)[j] == #[trigger] pre.subrange(0, 6)[j] by {
        assert(s[pos + j] == rc[j]);
    }
    assert(s.subrange(pos, pos + 6) =~= pre.subrange(0, 6));
    assert forall|j: int|
        0 <= j < 6 implies lower_code(#[trigger] pre.subrange(0, 6)[j]) == lower_code(
        "create"@[j]) by {
        assert(lower_code(pre[j]) == lower_code("create table "@[j]));
    }
    lemma_tag_at_nc(s, pos, pre.subrange(0, 6), "create"@);
    // one space, then some spelling of `table`
    assert(lower_code(pre[6]) == lower_code("create table "@[6]));
    assert(s[pos + 6] == ' ');
    assert(lower_code(pre[7]) == lower_code("create table "@[7]));
    assert(!is_space(s[pos + 7]));
    lemma_ws1_single(s, pos + 6);
    assert forall|j: int|
        0 <= j < 5 implies s.subrange(pos + 7, pos + 12)[j] == #[trigger] pre.subrange(
        7, 12)[j] by {
        assert(s[pos + 7 + j] == rc[7 + j]);
    }
    assert(s.subrange(pos + 7, pos + 12) =~= pre.subrange(7, 12));
    assert forall|j: int|
        0 <= j < 5 implies lower_code(#[trigger] pre.subrange(7, 12)[j]) == lower_code(
        "table"@[j]) by {
        assert(lower_code(pre[7 + j]) == lower_code("create table "@[7 + j]));
    }
    lemma_tag_at_nc(s, pos + 7, pre.subrange(7, 12), "table"@);
    // one space, then the table name starts
    assert(lower_code(pre[12]) == lower_code("create table "@[12]));
    assert(s[pos + 12] == ' ');
    assert(s[pos + 13] == name[0]);
    lemma_ws1_single(s, pos + 12);
    // the table name, ended by the space before `(`
    assert forall|j: int|
        0 <= j < n implies s.subrange(pos + 13, pos + 13 + n)[j] == #[trigger] name[j] by {
        assert(s[pos + 13 + j] == rc[13 + j]);
    }
    assert(s.subrange(pos + 13, pos + 13 + n) =~= name);
    assert(s[pos + 13 + n] == ' ');
    lemma_identifier_at(s, pos + 13, name);
    // one space, then `(`
    assert(s[pos + 14 + n] == '(');
    lemma_ws1_single(s, pos + 13 + n);
    // the first column definition
    let rcol0 = render_column_with(cols[0], spells[0]);
    let rtail = render_cols_tail_with(cols.drop_first(), spells.drop_first());
    assert(rcols == rcol0 + rtail);
    let p7 = pos + 15 + n;
    assert forall|j: int|
        0 <= j < rcol0.len() implies s.subrange(p7, p7 + rcol0.len())[j] == #[trigger] rcol0[
        j] by {
        assert(s[p7 + j] == rc[15 + n + j]);
        assert(rcols[j] == rcol0[j]);
    }
    assert(s.subrange(p7, p7 + rcol0.len()) =~= rcol0);
    assert(eq_nc(spells[0], render_type(cols[0].type_info)));
    lemma_column_at(s, p7, cols[0], spells[0]);
    // the remaining column definitions, ended by `)`
    let p8 = p7 + rcol0.len() as int;
    assert forall|j: int|
        0 <= j < rtail.len() implies s.subrange(p8, p8 + rtail.len())[j] == #[trigger] rtail[
        j] by {
        assert(s[p8 + j] == rc[15 + n + rcol0.len() + j]);
        assert(rcols[rcol0.len() + j] == rtail[j]);
    }
    assert(s.subrange(p8, p8 + rtail.len()) =~= rtail);
    assert(s[p8 + rtail.len()] == ')');
    assert forall|i: int|
        0 <= i < cols.drop_first().len() implies valid_ident(
        #[trigger] cols.drop_first()[i].name) by {
        assert(cols.drop_first()[i] == cols[i + 1]);
    }
    assert forall|i: int|
        0 <= i < cols.drop_first().len() implies eq_nc(
        #[trigger] spells.drop_first()[i],
        render_type(cols.drop_first()[i].type_info),
    ) by {
        assert(spells.drop_first()[i] == spells[i + 1]);
        assert(cols.drop_first()[i] == cols[i + 1]);
        assert(eq_nc(spells[i + 1], render_type(cols[i + 1].type_info)));
    }
    lemma_cols_more_at(s, p8, seq![cols[0]], cols.drop_first(), spells.drop_first());
    assert(seq![cols[0]] + cols.drop_first() =~= cols);
}

/// For every valid table name and non-empty column list, parsing a rendered
/// `create table` statement — its keywords and type names spelled in any
/// ASCII case — succeeds and yields exactly that name and those columns, in
/// declaration order.
pub proof fn lemma_parse_create_complete_any_case(
    pre: Seq<char>,
    name: Seq<char>,
    cols: Seq<ColumnV>,
    spells: Seq<Seq<char>>,
)
    requires
        eq_nc(pre, "create table "@),
        valid_ident(name),
        cols.len() >= 1,
        spells.len() == cols.len(),
        forall|i: int| 0 <= i < cols.len() ==> valid_ident(#[trigger] cols[i].name),
        forall|i: int|
            0 <= i < cols.len() ==> eq_nc(#[trigger] spells[i], render_type(cols[i].type_info)),
    ensures
        ({
            let s = render_create_with(pre, name, cols, spells).push(';');
            spec_parse_query(s) == PRes::Parsed(
                s.len() as int,
                QueryV::Create(CreateV { table: name, columns: cols }),
            )
        }),
{
    reveal_strlit("create table ");
    reveal_strlit("create");
    reveal_strlit("select");
    reveal_strlit("insert");
    let rc = render_create_with(pre, name, cols, spells);
    let s = rc.push(';');
    assert(pre.len() == 13);
    assert(rc[0] == pre[0]) by {
        assert(rc[0] == (pre + name)[0]);
    }
    assert(s[0] == rc[0]);
    assert(lower_code(pre[0]) == lower_code("create table "@[0]));
    assert(!is_space(s[0]));
    assert(spec_skip_ws(s, 0) == 0);
    assert(!match_tag_nc(s, 0, "select"@)) by {
        if match_tag_nc(s, 0, "select"@) {
            assert(lower_code(s[0int]) == lower_code("select"@[0]));
        }
    }
    assert(s.subrange(0, rc.len() as int) =~= rc);
    lemma_create_at(s, 0, pre, name, cols, spells);
    assert(match_tag_nc(s, 0, "create"@)) by {
        assert forall|j: int|
            0 <= j < 6 implies lower_code(s[0 + j]) == lower_code(#[trigger] "create"@[j]) by {
            assert(s[0 + j] == s[j]);
            assert(rc[j] == pre[j]) by {
                assert(rc[j] == (pre + name)[j]);
            }
            assert(lower_code(pre[j]) == lower_code("create table "@[j]));
        }
    }
    let end = rc.len() as int;
    assert(s[end] == ';');
    assert(spec_skip_ws(s, end) == end);
    assert(spec_skip_ws(s, end + 1) == end + 1);
    assert(spec_statement(s, 0) == PRes::Parsed(
        end,
        QueryV::Create(CreateV { table: name, columns: cols }),
    ));
    assert(spec_query(s, 0) == PRes::Parsed(
        end + 1,
        QueryV::Create(CreateV { table: name, columns: cols }),
    ));
}

/// The canonical-rendering form of the law above: parsing the lower-case
/// rendering of any valid table name and non-empty column list yields
/// exactly that name and those columns.
pub proof fn lemma_parse_create_complete(name: Seq<char>, cols: Seq<ColumnV>)
    requires
        valid_ident(name),
        cols.len() >= 1,
        forall|i: int| 0 <= i < cols.len() ==> valid_ident(#[trigger] cols[i].name),
    ensures
        ({
            let s = render_create(name, cols).push(';');
            spec_parse_query(s) == PRes::Parsed(
                s.len() as int,
                QueryV::Create(CreateV { table: name, columns: cols }),
            )
        }),
{
    assert forall|i: int|
        0 <= i < cols.len() implies eq_nc(
        #[trigger] canonical_spells(cols)[i],
        render_type(cols[i].type_info),
    ) by {
        assert(canonical_spells(cols)[i] == render_type(cols[i].type_info));
    }
    lemma_parse_create_complete_any_case(
        "create table "@,
        name,
        cols,
        canonical_spells(cols),
    );
}

} // verus!
