//! The `INSERT INTO` grammar.

use vstd::prelude::*;

use crate::parse::{
    comma_sep_identifiers, identifier, spec_comma_sep_ids, spec_identifier, spec_tag_nc, spec_ws1,
    tag_nc, ws1,
};
use crate::parse_error::{flatten, push_ctx, wrap_ctx, PRes, ParseErrorTree};

verus! {

/// The table to insert into and the values of the new row, in positional
/// order.
#[derive(Debug, Clone, PartialEq, Eq)]
pub struct InsertStatement {
    pub table: String,
    pub values: Vec<String>,
}

/// Mathematical model of an [`InsertStatement`].
#[verifier::ext_equal]
pub ghost struct InsertV {
    pub table: Seq<char>,
    pub values: Seq<Seq<char>>,
}

impl DeepView for InsertStatement {
    type V = InsertV;

    open spec fn deep_view(&self) -> InsertV {
        InsertV { table: self.table@, values: self.values.deep_view() }
    }
}

/// The `INSERT INTO` grammar: the two keywords, the table name, the `VALUES`
/// keyword and a comma-separated list of bare value tokens, separated by
/// whitespace, all under the context naming the statement; the name's failure
/// also names the table-name rule, and the list's failure the values rule.
pub open spec fn spec_insert(s: Seq<char>, pos: int) -> PRes<InsertV> {
    match spec_tag_nc(s, pos, "insert"@) {
        PRes::Failed(e) => PRes::Failed(push_ctx(e, pos, "Insert statement"@)),
        PRes::Parsed(p1, _) => match spec_ws1(s, p1) {
            PRes::Failed(e) => PRes::Failed(push_ctx(e, pos, "Insert statement"@)),
            PRes::Parsed(p2, _) => match spec_tag_nc(s, p2, "into"@) {
                PRes::Failed(e) => PRes::Failed(push_ctx(e, pos, "Insert statement"@)),
                PRes::Parsed(p3, _) => match spec_ws1(s, p3) {
                    PRes::Failed(e) => PRes::Failed(push_ctx(e, pos, "Insert statement"@)),
                    PRes::Parsed(p4, _) => match spec_identifier(s, p4) {
                        PRes::Failed(e) => PRes::Failed(
                            push_ctx(push_ctx(e, p4, "Table Name"@), pos, "Insert statement"@),
                        ),
                        PRes::Parsed(p5, table) => match spec_ws1(s, p5) {
                            PRes::Failed(e) => PRes::Failed(
                                push_ctx(e, pos, "Insert statement"@),
                            ),
                            PRes::Parsed(p6, _) => match spec_tag_nc(s, p6, "values"@) {
                                PRes::Failed(e) => PRes::Failed(
                                    push_ctx(e, pos, "Insert statement"@),
                                ),
                                PRes::Parsed(p7, _) => match spec_ws1(s, p7) {
                                    PRes::Failed(e) => PRes::Failed(
                                        push_ctx(e, pos, "Insert statement"@),
                                    ),
                                    PRes::Parsed(p8, _) => match spec_comma_sep_ids(s, p8) {
                                        PRes::Failed(e) => PRes::Failed(
                                            push_ctx(
                                                push_ctx(e, p8, "Values"@),
                                                pos,
                                                "Insert statement"@,
                                            ),
                                        ),
                                        PRes::Parsed(p9, values) => PRes::Parsed(
                                            p9,
                                            InsertV { table, values },
                                        ),
                                    },
                                },
                            },
                        },
                    },
                },
            },
        },
    }
}

impl InsertStatement {
    /// Parses `INSERT INTO <table name> VALUES <value> (, <value>)*`.
    pub fn parse_at(s: &str, pos: usize) -> (r: Result<(usize, InsertStatement), ParseErrorTree>)
        requires
            pos <= s@.len(),
        ensures
            match r {
                Ok((p, st)) => spec_insert(s@, pos as int) == PRes::Parsed(
                    p as int,
                    st.deep_view(),
                ) && pos < p <= s@.len(),
                Err(e) => spec_insert(s@, pos as int) == PRes::<InsertV>::Failed(flatten(e)),
            },
    {
        let p1 = match tag_nc(s, pos, "insert") {
            Ok(p) => p,
            Err(e) => {
                return Err(wrap_ctx(e, pos, "Insert statement"));
            },
        };
        let p2 = match ws1(s, p1) {
            Ok(p) => p,
            Err(e) => {
                return Err(wrap_ctx(e, pos, "Insert statement"));
            },
        };
        let p3 = match tag_nc(s, p2, "into") {
            Ok(p) => p,
            Err(e) => {
                return Err(wrap_ctx(e, pos, "Insert statement"));
            },
        };
        let p4 = match ws1(s, p3) {
            Ok(p) => p,
            Err(e) => {
                return Err(wrap_ctx(e, pos, "Insert statement"));
            },
        };
        let table = match identifier(s, p4) {
            Ok(ok) => ok,
            Err(e) => {
                return Err(wrap_ctx(wrap_ctx(e, p4, "Table Name"), pos, "Insert statement"));
            },
        };
        let p6 = match ws1(s, table.0) {
            Ok(p) => p,
            Err(e) => {
                return Err(wrap_ctx(e, pos, "Insert statement"));
            },
        };
        let p7 = match tag_nc(s, p6, "values") {
            Ok(p) => p,
            Err(e) => {
                return Err(wrap_ctx(e, pos, "Insert statement"));
            },
        };
        let p8 = match ws1(s, p7) {
            Ok(p) => p,
            Err(e) => {
                return Err(wrap_ctx(e, pos, "Insert statement"));
            },
        };
        match comma_sep_identifiers(s, p8) {
            Ok((p9, values)) => Ok((p9, InsertStatement { table: table.1, values })),
            Err(e) => Err(wrap_ctx(wrap_ctx(e, p8, "Values"), pos, "Insert statement")),
        }
    }

    /// Parses an `INSERT INTO` statement from the start of the given text,
    /// returning the position after the consumed text.
    pub fn parse_from_raw(input: &str) -> (r: Result<(usize, InsertStatement), ParseErrorTree>)
        ensures
            match r {
                Ok((p, st)) => spec_insert(input@, 0) == PRes::Parsed(p as int, st.deep_view())
                    && p <= input@.len(),
                Err(e) => spec_insert(input@, 0) == PRes::<InsertV>::Failed(flatten(e)),
            },
    {
        InsertStatement::parse_at(input, 0)
    }
}

} // verus!
