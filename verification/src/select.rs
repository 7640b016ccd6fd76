//! The `SELECT ... FROM` grammar.

use vstd::prelude::*;

use crate::parse::{
    comma_sep_identifiers, identifier, spec_comma_sep_ids, spec_identifier, spec_tag_nc, spec_ws1,
    tag_nc, ws1,
};
use crate::parse_error::{flatten, push_ctx, wrap_ctx, PRes, ParseErrorTree};

verus! {

/// The table to read from and the requested projection, a non-empty field
/// list.
#[derive(Debug, Clone, PartialEq, Eq)]
pub struct SelectStatement {
    pub table: String,
    pub fields: Vec<String>,
}

/// Mathematical model of a [`SelectStatement`].
#[verifier::ext_equal]
pub ghost struct SelectV {
    pub table: Seq<char>,
    pub fields: Seq<Seq<char>>,
}

impl DeepView for SelectStatement {
    type V = SelectV;

    open spec fn deep_view(&self) -> SelectV {
        SelectV { table: self.table@, fields: self.fields.deep_view() }
    }
}

/// The `SELECT` grammar: the keyword, a non-empty comma-separated projection
/// list, the `FROM` keyword and the table name, separated by whitespace, all
/// under the context naming the statement; the list's failure also names the
/// select-columns rule, and the name's the from-table rule.
pub open spec fn spec_select(s: Seq<char>, pos: int) -> PRes<SelectV> {
    match spec_tag_nc(s, pos, "select"@) {
        PRes::Failed(e) => PRes::Failed(push_ctx(e, pos, "Select Statement"@)),
        PRes::Parsed(p1, _) => match spec_ws1(s, p1) {
            PRes::Failed(e) => PRes::Failed(push_ctx(e, pos, "Select Statement"@)),
            PRes::Parsed(p2, _) => match spec_comma_sep_ids(s, p2) {
                PRes::Failed(e) => PRes::Failed(
                    push_ctx(push_ctx(e, p2, "Select Columns"@), pos, "Select Statement"@),
                ),
                PRes::Parsed(p3, fields) => match spec_ws1(s, p3) {
                    PRes::Failed(e) => PRes::Failed(push_ctx(e, pos, "Select Statement"@)),
                    PRes::Parsed(p4, _) => match spec_tag_nc(s, p4, "from"@) {
                        PRes::Failed(e) => PRes::Failed(push_ctx(e, pos, "Select Statement"@)),
                        PRes::Parsed(p5, _) => match spec_ws1(s, p5) {
                            PRes::Failed(e) => PRes::Failed(
                                push_ctx(e, pos, "Select Statement"@),
                            ),
                            PRes::Parsed(p6, _) => match spec_identifier(s, p6) {
                                PRes::Failed(e) => PRes::Failed(
                                    push_ctx(
                                        push_ctx(e, p6, "From Table"@),
                                        pos,
                                        "Select Statement"@,
                                    ),
                                ),
                                PRes::Parsed(p7, table) => PRes::Parsed(
                                    p7,
                                    SelectV { table, fields },
                                ),
                            },
                        },
                    },
                },
            },
        },
    }
}

impl SelectStatement {
    /// Parses `SELECT <field> (, <field>)* FROM <table name>`.
    pub fn parse_at(s: &str, pos: usize) -> (r: Result<(usize, SelectStatement), ParseErrorTree>)
        requires
            pos <= s@.len(),
        ensures
            match r {
                Ok((p, st)) => spec_select(s@, pos as int) == PRes::Parsed(
                    p as int,
                    st.deep_view(),
                ) && pos < p <= s@.len(),
                Err(e) => spec_select(s@, pos as int) == PRes::<SelectV>::Failed(flatten(e)),
            },
    {
        let p1 = match tag_nc(s, pos, "select") {
            Ok(p) => p,
            Err(e) => {
                return Err(wrap_ctx(e, pos, "Select Statement"));
            },
        };
        let p2 = match ws1(s, p1) {
            Ok(p) => p,
            Err(e) => {
                return Err(wrap_ctx(e, pos, "Select Statement"));
            },
        };
        let fields = match comma_sep_identifiers(s, p2) {
            Ok(ok) => ok,
            Err(e) => {
                return Err(wrap_ctx(wrap_ctx(e, p2, "Select Columns"), pos, "Select Statement"));
            },
        };
        let p4 = match ws1(s, fields.0) {
            Ok(p) => p,
            Err(e) => {
                return Err(wrap_ctx(e, pos, "Select Statement"));
            },
        };
        let p5 = match tag_nc(s, p4, "from") {
            Ok(p) => p,
            Err(e) => {
                return Err(wrap_ctx(e, pos, "Select Statement"));
            },
        };
        let p6 = match ws1(s, p5) {
            Ok(p) => p,
            Err(e) => {
                return Err(wrap_ctx(e, pos, "Select Statement"));
            },
        };
        match identifier(s, p6) {
            Ok((p7, table)) => Ok((p7, SelectStatement { table, fields: fields.1 })),
            Err(e) => Err(wrap_ctx(wrap_ctx(e, p6, "From Table"), pos, "Select Statement")),
        }
    }

    /// Parses a `SELECT` statement from the start of the given text,
    /// returning the position after the consumed text.
    pub fn parse_from_raw(input: &str) -> (r: Result<(usize, SelectStatement), ParseErrorTree>)
        ensures
            match r {
                Ok((p, st)) => spec_select(input@, 0) == PRes::Parsed(p as int, st.deep_view())
                    && p <= input@.len(),
                Err(e) => spec_select(input@, 0) == PRes::<SelectV>::Failed(flatten(e)),
            },
    {
        SelectStatement::parse_at(input, 0)
    }
}

} // verus!
