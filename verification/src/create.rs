//! The `CREATE TABLE` grammar: column types, column definitions, and the
//! statement itself.

use vstd::prelude::*;

use crate::parse::{
    lemma_ident_end_bounds, lemma_skip_ws_bounds, identifier, skip_ws, spec_identifier,
    spec_skip_ws, spec_tag_nc, spec_ws1, tag_nc, ws1,
};
use crate::parse_error::{
    base_err, flatten, push_ctx, wrap_ctx, ExpectKind, PRes, ParseErrorTree, SpecKind,
};

verus! {

/// A column's type.
#[derive(Debug, Clone, Copy, Hash, PartialEq, Eq)]
pub enum SqlTypeInfo {
    String,
    Int,
}

/// The type keyword is exactly `string` or `int`, case-insensitive; anything
/// else fails under the context naming the column-type rule, reporting the
/// first alternative.
pub open spec fn spec_sql_type(s: Seq<char>, pos: int) -> PRes<SqlTypeInfo> {
    if crate::parse::match_tag_nc(s, pos, "string"@) {
        PRes::Parsed(pos + "string"@.len(), SqlTypeInfo::String)
    } else if crate::parse::match_tag_nc(s, pos, "int"@) {
        PRes::Parsed(pos + "int"@.len(), SqlTypeInfo::Int)
    } else {
        PRes::Failed(push_ctx(base_err(pos, SpecKind::Tag("string"@)), pos, "Column Type"@))
    }
}

pub proof fn lemma_sql_type_bounds(s: Seq<char>, pos: int)
    requires
        0 <= pos <= s.len(),
    ensures
        spec_sql_type(s, pos) matches PRes::Parsed(p, _) ==> pos < p <= s.len(),
{
    reveal_strlit("string");
    reveal_strlit("int");
}

impl SqlTypeInfo {
    /// Parses `string` | `int`, case-insensitive.
    pub fn parse_at(s: &str, pos: usize) -> (r: Result<(usize, SqlTypeInfo), ParseErrorTree>)
        requires
            pos <= s@.len(),
        ensures
            match r {
                Ok((p, ti)) => spec_sql_type(s@, pos as int) == PRes::Parsed(p as int, ti) && pos
                    < p <= s@.len(),
                Err(e) => spec_sql_type(s@, pos as int) == PRes::<SqlTypeInfo>::Failed(flatten(e)),
            },
    {
        proof {
            reveal_strlit("string");
            reveal_strlit("int");
        }
        match tag_nc(s, pos, "string") {
            Ok(p) => Ok((p, SqlTypeInfo::String)),
            Err(e1) => match tag_nc(s, pos, "int") {
                Ok(p) => Ok((p, SqlTypeInfo::Int)),
                Err(e2) => {
                    let alt = ParseErrorTree::Alt { first: Box::new(e1), second: Box::new(e2) };
                    Err(wrap_ctx(alt, pos, "Column Type"))
                },
            },
        }
    }
}

/// A column definition: its name and its type.
#[derive(Debug, Clone, PartialEq, Eq)]
pub struct Column {
    pub name: String,
    pub type_info: SqlTypeInfo,
}

/// Mathematical model of a [`Column`].
#[verifier::ext_equal]
pub ghost struct ColumnV {
    pub name: Seq<char>,
    pub type_info: SqlTypeInfo,
}

impl DeepView for Column {
    type V = ColumnV;

    open spec fn deep_view(&self) -> ColumnV {
        ColumnV { name: self.name@, type_info: self.type_info }
    }
}

/// A column definition is `<identifier> <whitespace> <type>`, under the
/// context naming the column rule; the identifier's failure also names the
/// column-name rule.
pub open spec fn spec_column(s: Seq<char>, pos: int) -> PRes<ColumnV> {
    match spec_identifier(s, pos) {
        PRes::Failed(e) => PRes::Failed(
            push_ctx(push_ctx(e, pos, "Column Name"@), pos, "Create Column"@),
        ),
        PRes::Parsed(p1, name) => match spec_ws1(s, p1) {
            PRes::Failed(e) => PRes::Failed(push_ctx(e, pos, "Create Column"@)),
            PRes::Parsed(p2, _) => match spec_sql_type(s, p2) {
                PRes::Failed(e) => PRes::Failed(push_ctx(e, pos, "Create Column"@)),
                PRes::Parsed(p3, ti) => PRes::Parsed(p3, ColumnV { name, type_info: ti }),
            },
        },
    }
}

pub proof fn lemma_column_bounds(s: Seq<char>, pos: int)
    requires
        0 <= pos <= s.len(),
    ensures
        spec_column(s, pos) matches PRes::Parsed(p, _) ==> pos < p <= s.len(),
{
    lemma_ident_end_bounds(s, pos);
    match spec_identifier(s, pos) {
        PRes::Parsed(p1, _) => {
            match spec_ws1(s, p1) {
                PRes::Parsed(p2, _) => {
                    lemma_skip_ws_bounds(s, p1 + 1);
                    lemma_sql_type_bounds(s, p2);
                },
                PRes::Failed(_) => {},
            }
        },
        PRes::Failed(_) => {},
    }
}

impl Column {
    /// Parses `<column name> <column type>`.
    pub fn parse_at(s: &str, pos: usize) -> (r: Result<(usize, Column), ParseErrorTree>)
        requires
            pos <= s@.len(),
        ensures
            match r {
                Ok((p, c)) => spec_column(s@, pos as int) == PRes::Parsed(p as int, c.deep_view())
                    && pos < p <= s@.len(),
                Err(e) => spec_column(s@, pos as int) == PRes::<ColumnV>::Failed(flatten(e)),
            },
    {
        let name = match identifier(s, pos) {
            Ok(ok) => ok,
            Err(e) => {
                return Err(wrap_ctx(wrap_ctx(e, pos, "Column Name"), pos, "Create Column"));
            },
        };
        let p2 = match ws1(s, name.0) {
            Ok(p) => p,
            Err(e) => {
                return Err(wrap_ctx(e, pos, "Create Column"));
            },
        };
        match SqlTypeInfo::parse_at(s, p2) {
            Ok((p3, ti)) => Ok((p3, Column { name: name.1, type_info: ti })),
            Err(e) => Err(wrap_ctx(e, pos, "Create Column")),
        }
    }
}

/// The continuation of a comma-separated column list, as for identifier
/// lists: a comma followed by a column definition extends the list; the first
/// failure ends it without consuming the separator.
pub open spec fn spec_cols_more(s: Seq<char>, pos: int, acc: Seq<ColumnV>) -> (int, Seq<ColumnV>)
    decreases s.len() - pos,
    when 0 <= pos <= s.len()
    via spec_cols_more_decreases
{
    let p1 = spec_skip_ws(s, pos);
    if p1 < s.len() && s[p1] == ',' {
        let p2 = spec_skip_ws(s, p1 + 1);
        match spec_column(s, p2) {
            PRes::Parsed(p3, c) => spec_cols_more(s, p3, acc.push(c)),
            PRes::Failed(e) => (pos, acc),
        }
    } else {
        (pos, acc)
    }
}

#[via_fn]
proof fn spec_cols_more_decreases(s: Seq<char>, pos: int, acc: Seq<ColumnV>) {
    lemma_skip_ws_bounds(s, pos);
    let p1 = spec_skip_ws(s, pos);
    if p1 < s.len() && s[p1] == ',' {
        lemma_skip_ws_bounds(s, p1 + 1);
        lemma_column_bounds(s, spec_skip_ws(s, p1 + 1));
    }
}

/// A comma-separated column list: one column definition, then as many
/// comma-column pairs as can be consumed.
pub open spec fn spec_columns(s: Seq<char>, pos: int) -> PRes<Seq<ColumnV>> {
    match spec_column(s, pos) {
        PRes::Failed(e) => PRes::Failed(e),
        PRes::Parsed(p1, c) => {
            let (p2, cols) = spec_cols_more(s, p1, seq![c]);
            PRes::Parsed(p2, cols)
        },
    }
}

/// Parses a comma-separated list of column definitions, at least one.
fn comma_sep_columns(s: &str, pos: usize) -> (r: Result<(usize, Vec<Column>), ParseErrorTree>)
    requires
        pos <= s@.len(),
    ensures
        match r {
            Ok((p, cols)) => spec_columns(s@, pos as int) == PRes::Parsed(
                p as int,
                cols.deep_view(),
            ) && pos < p <= s@.len() && cols@.len() >= 1,
            Err(e) => spec_columns(s@, pos as int) == PRes::<Seq<ColumnV>>::Failed(flatten(e)),
        },
{
    let n = s.unicode_len();
    let first = match Column::parse_at(s, pos) {
        Ok(ok) => ok,
        Err(e) => {
            return Err(e);
        },
    };
    let mut p: usize = first.0;
    let ghost first_v = first.1.deep_view();
    let mut cols: Vec<Column> = Vec::new();
    cols.push(first.1);
    let ghost start_p = p as int;
    let ghost start_acc = cols.deep_view();
    proof {
        assert(start_acc =~= seq![first_v]);
    }
    let mut done = false;
    while !done
        invariant
            n == s@.len(),
            pos < p <= n,
            cols@.len() >= 1,
            spec_cols_more(s@, p as int, cols.deep_view()) == spec_cols_more(s@, start_p, start_acc),
            done ==> spec_cols_more(s@, p as int, cols.deep_view()) == (p as int, cols.deep_view()),
        decreases n - p + (if done { 0int } else { 1int }),
    {
        let sp = skip_ws(s, p);
        if sp < n && s.get_char(sp) == ',' {
            let p2 = skip_ws(s, sp + 1);
            match Column::parse_at(s, p2) {
                Ok((p3, c)) => {
                    let ghost prior_acc = cols.deep_view();
                    let ghost c_v = c.deep_view();
                    cols.push(c);
                    proof {
                        assert(cols.deep_view() =~= prior_acc.push(c_v));
                    }
                    p = p3;
                },
                Err(_) => {
                    done = true;
                },
            }
        } else {
            done = true;
        }
    }
    Ok((p, cols))
}

/// Column definitions are a parenthesized, comma-separated, non-empty list of
/// column definitions, under the context naming the rule.
pub open spec fn spec_column_defs(s: Seq<char>, pos: int) -> PRes<Seq<ColumnV>> {
    if pos < s.len() && s[pos] == '(' {
        match spec_columns(s, pos + 1) {
            PRes::Failed(e) => PRes::Failed(push_ctx(e, pos, "Column Definitions"@)),
            PRes::Parsed(p1, cols) => if p1 < s.len() && s[p1] == ')' {
                PRes::Parsed(p1 + 1, cols)
            } else {
                PRes::Failed(
                    push_ctx(base_err(p1, SpecKind::Char(')')), pos, "Column Definitions"@),
                )
            },
        }
    } else {
        PRes::Failed(push_ctx(base_err(pos, SpecKind::Char('(')), pos, "Column Definitions"@))
    }
}

/// Parses `( <column def> (, <column def>)* )`.
pub fn column_definitions(s: &str, pos: usize) -> (r: Result<(usize, Vec<Column>), ParseErrorTree>)
    requires
        pos <= s@.len(),
    ensures
        match r {
            Ok((p, cols)) => spec_column_defs(s@, pos as int) == PRes::Parsed(
                p as int,
                cols.deep_view(),
            ) && pos < p <= s@.len() && cols@.len() >= 1,
            Err(e) => spec_column_defs(s@, pos as int) == PRes::<Seq<ColumnV>>::Failed(flatten(e)),
        },
{
    let n = s.unicode_len();
    if pos < n && s.get_char(pos) == '(' {
        match comma_sep_columns(s, pos + 1) {
            Ok((p1, cols)) => {
                if p1 < n && s.get_char(p1) == ')' {
                    Ok((p1 + 1, cols))
                } else {
                    Err(wrap_ctx(
                        ParseErrorTree::Base { offset: p1, kind: ExpectKind::Char(')') },
                        pos,
                        "Column Definitions",
                    ))
                }
            },
            Err(e) => Err(wrap_ctx(e, pos, "Column Definitions")),
        }
    } else {
        Err(wrap_ctx(
            ParseErrorTree::Base { offset: pos, kind: ExpectKind::Char('(') },
            pos,
            "Column Definitions",
        ))
    }
}

/// The table to be created and its columns, in declaration order.
#[derive(Debug, Clone, Default, PartialEq, Eq)]
pub struct CreateStatement {
    pub table: String,
    pub columns: Vec<Column>,
}

/// Mathematical model of a [`CreateStatement`].
#[verifier::ext_equal]
pub ghost struct CreateV {
    pub table: Seq<char>,
    pub columns: Seq<ColumnV>,
}

impl DeepView for CreateStatement {
    type V = CreateV;

    open spec fn deep_view(&self) -> CreateV {
        CreateV { table: self.table@, columns: self.columns.deep_view() }
    }
}

/// The `CREATE TABLE` grammar: the two keywords, the table name and the
/// column definitions, separated by whitespace, all under the context naming
/// the statement; the name's own failure also names the table-name rule.
pub open spec fn spec_create(s: Seq<char>, pos: int) -> PRes<CreateV> {
    match spec_tag_nc(s, pos, "create"@) {
        PRes::Failed(e) => PRes::Failed(push_ctx(e, pos, "Create Table"@)),
        PRes::Parsed(p1, _) => match spec_ws1(s, p1) {
            PRes::Failed(e) => PRes::Failed(push_ctx(e, pos, "Create Table"@)),
            PRes::Parsed(p2, _) => match spec_tag_nc(s, p2, "table"@) {
                PRes::Failed(e) => PRes::Failed(push_ctx(e, pos, "Create Table"@)),
                PRes::Parsed(p3, _) => match spec_ws1(s, p3) {
                    PRes::Failed(e) => PRes::Failed(push_ctx(e, pos, "Create Table"@)),
                    PRes::Parsed(p4, _) => match spec_identifier(s, p4) {
                        PRes::Failed(e) => PRes::Failed(
                            push_ctx(push_ctx(e, p4, "Table Name"@), pos, "Create Table"@),
                        ),
                        PRes::Parsed(p5, table) => match spec_ws1(s, p5) {
                            PRes::Failed(e) => PRes::Failed(push_ctx(e, pos, "Create Table"@)),
                            PRes::Parsed(p6, _) => match spec_column_defs(s, p6) {
                                PRes::Failed(e) => PRes::Failed(
                                    push_ctx(e, pos, "Create Table"@),
                                ),
                                PRes::Parsed(p7, columns) => PRes::Parsed(
                                    p7,
                                    CreateV { table, columns },
                                ),
                            },
                        },
                    },
                },
            },
        },
    }
}

impl CreateStatement {
    /// Parses `CREATE TABLE <table name> (<column defs>)`.
    pub fn parse_at(s: &str, pos: usize) -> (r: Result<(usize, CreateStatement), ParseErrorTree>)
        requires
            pos <= s@.len(),
        ensures
            match r {
                Ok((p, st)) => spec_create(s@, pos as int) == PRes::Parsed(
                    p as int,
                    st.deep_view(),
                ) && pos < p <= s@.len(),
                Err(e) => spec_create(s@, pos as int) == PRes::<CreateV>::Failed(flatten(e)),
            },
    {
        proof {
            reveal_strlit("create");
            reveal_strlit("table");
        }
        let p1 = match tag_nc(s, pos, "create") {
            Ok(p) => p,
            Err(e) => {
                return Err(wrap_ctx(e, pos, "Create Table"));
            },
        };
        let p2 = match ws1(s, p1) {
            Ok(p) => p,
            Err(e) => {
                return Err(wrap_ctx(e, pos, "Create Table"));
            },
        };
        let p3 = match tag_nc(s, p2, "table") {
            Ok(p) => p,
            Err(e) => {
                return Err(wrap_ctx(e, pos, "Create Table"));
            },
        };
        let p4 = match ws1(s, p3) {
            Ok(p) => p,
            Err(e) => {
                return Err(wrap_ctx(e, pos, "Create Table"));
            },
        };
        let table = match identifier(s, p4) {
            Ok(ok) => ok,
            Err(e) => {
                return Err(wrap_ctx(wrap_ctx(e, p4, "Table Name"), pos, "Create Table"));
            },
        };
        let p6 = match ws1(s, table.0) {
            Ok(p) => p,
            Err(e) => {
                return Err(wrap_ctx(e, pos, "Create Table"));
            },
        };
        match column_definitions(s, p6) {
            Ok((p7, columns)) => Ok((p7, CreateStatement { table: table.1, columns })),
            Err(e) => Err(wrap_ctx(e, pos, "Create Table")),
        }
    }

    /// Parses a `CREATE TABLE` statement from the start of the given text,
    /// returning the position after the consumed text.
    pub fn parse_from_raw(input: &str) -> (r: Result<(usize, CreateStatement), ParseErrorTree>)
        ensures
            match r {
                Ok((p, st)) => spec_create(input@, 0) == PRes::Parsed(p as int, st.deep_view())
                    && p <= input@.len(),
                Err(e) => spec_create(input@, 0) == PRes::<CreateV>::Failed(flatten(e)),
            },
    {
        CreateStatement::parse_at(input, 0)
    }
}

} // verus!
