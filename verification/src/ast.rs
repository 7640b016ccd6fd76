//! The top-level statement grammar: leading whitespace, a keyword-dispatched
//! statement, a terminating `;`, and nothing but whitespace after it.

use vstd::prelude::*;

use crate::create::{spec_create, CreateStatement, CreateV};
use crate::insert::{spec_insert, InsertStatement, InsertV};
use crate::parse::{match_tag_nc, skip_ws, spec_skip_ws, tag_nc};
use crate::parse_error::{
    base_err, flatten, push_ctx, spec_format, wrap_ctx, ExpectKind, FormattedError, PRes,
    ParseErrorTree, SpecKind,
};
use crate::select::{spec_select, SelectStatement, SelectV};

verus! {

/// The parsed, typed representation of one SQL command.
#[derive(Debug, Clone, PartialEq, Eq)]
pub enum SqlQuery {
    Create(CreateStatement),
    Insert(InsertStatement),
    Select(SelectStatement),
}

/// Mathematical model of a [`SqlQuery`].
pub ghost enum QueryV {
    Create(CreateV),
    Insert(InsertV),
    Select(SelectV),
}

impl DeepView for SqlQuery {
    type V = QueryV;

    open spec fn deep_view(&self) -> QueryV {
        match self {
            SqlQuery::Create(st) => QueryV::Create(st.deep_view()),
            SqlQuery::Insert(st) => QueryV::Insert(st.deep_view()),
            SqlQuery::Select(st) => QueryV::Select(st.deep_view()),
        }
    }
}

/// The statement branch chosen by peeking the leading keyword: whichever
/// keyword matches commits to that branch; if none matches, the failure is
/// the first alternative's, expecting `select`.
pub open spec fn spec_statement(s: Seq<char>, p0: int) -> PRes<QueryV> {
    if match_tag_nc(s, p0, "select"@) {
        match spec_select(s, p0) {
            PRes::Parsed(p1, st) => PRes::Parsed(p1, QueryV::Select(st)),
            PRes::Failed(e) => PRes::Failed(e),
        }
    } else if match_tag_nc(s, p0, "create"@) {
        match spec_create(s, p0) {
            PRes::Parsed(p1, st) => PRes::Parsed(p1, QueryV::Create(st)),
            PRes::Failed(e) => PRes::Failed(e),
        }
    } else if match_tag_nc(s, p0, "insert"@) {
        match spec_insert(s, p0) {
            PRes::Parsed(p1, st) => PRes::Parsed(p1, QueryV::Insert(st)),
            PRes::Failed(e) => PRes::Failed(e),
        }
    } else {
        PRes::Failed(base_err(p0, SpecKind::Tag("select"@)))
    }
}

/// One full query: leading whitespace, a statement, whitespace, `;`, trailing
/// whitespace; every failure is wrapped in the context naming the query rule.
pub open spec fn spec_query(s: Seq<char>, pos: int) -> PRes<QueryV> {
    let p0 = spec_skip_ws(s, pos);
    match spec_statement(s, p0) {
        PRes::Failed(e) => PRes::Failed(push_ctx(e, pos, "Query"@)),
        PRes::Parsed(p1, q) => {
            let p2 = spec_skip_ws(s, p1);
            if p2 < s.len() && s[p2] == ';' {
                PRes::Parsed(spec_skip_ws(s, p2 + 1), q)
            } else {
                PRes::Failed(push_ctx(base_err(p2, SpecKind::Char(';')), pos, "Query"@))
            }
        },
    }
}

/// A whole input: one query and then the end of the input; text after the
/// query is a failure expecting the end of the input, with no context.
pub open spec fn spec_parse_query(s: Seq<char>) -> PRes<QueryV> {
    match spec_query(s, 0) {
        PRes::Failed(e) => PRes::Failed(e),
        PRes::Parsed(p, q) => if p == s.len() {
            PRes::Parsed(p, q)
        } else {
            PRes::Failed(base_err(p, SpecKind::Eof))
        },
    }
}

impl SqlQuery {
    /// Parses one statement dispatched on its leading keyword, through the
    /// terminating `;` and any whitespace after it.
    pub fn parse_at(s: &str, pos: usize) -> (r: Result<(usize, SqlQuery), ParseErrorTree>)
        requires
            pos <= s@.len(),
        ensures
            match r {
                Ok((p, q)) => spec_query(s@, pos as int) == PRes::Parsed(p as int, q.deep_view())
                    && pos <= p <= s@.len(),
                Err(e) => spec_query(s@, pos as int) == PRes::<QueryV>::Failed(flatten(e)),
            },
    {
        let p0 = skip_ws(s, pos);
        let branch: Result<(usize, SqlQuery), ParseErrorTree> = match tag_nc(s, p0, "select") {
            Ok(_) => match SelectStatement::parse_at(s, p0) {
                Ok((p1, st)) => Ok((p1, SqlQuery::Select(st))),
                Err(e) => {
                    let ghost fe = flatten(e);
                    let others = ParseErrorTree::Alt {
                        first: Box::new(ParseErrorTree::Base {
                            offset: p0,
                            kind: ExpectKind::Tag(String::from_str("create")),
                        }),
                        second: Box::new(ParseErrorTree::Base {
                            offset: p0,
                            kind: ExpectKind::Tag(String::from_str("insert")),
                        }),
                    };
                    let whole = ParseErrorTree::Alt { first: Box::new(e), second: Box::new(others) };
                    proof {
                        reveal_with_fuel(flatten, 4);
                        assert(flatten(whole) == fe);
                    }
                    Err(whole)
                },
            },
            Err(e_sel) => match tag_nc(s, p0, "create") {
                Ok(_) => match CreateStatement::parse_at(s, p0) {
                    Ok((p1, st)) => Ok((p1, SqlQuery::Create(st))),
                    Err(e) => {
                        proof {
                            reveal_with_fuel(flatten, 4);
                            assert(flatten(e).contexts.len() >= 1);
                        }
                        let others = ParseErrorTree::Alt {
                            first: Box::new(e),
                            second: Box::new(ParseErrorTree::Base {
                                offset: p0,
                                kind: ExpectKind::Tag(String::from_str("insert")),
                            }),
                        };
                        Err(ParseErrorTree::Alt {
                            first: Box::new(e_sel),
                            second: Box::new(others),
                        })
                    },
                },
                Err(e_cre) => match tag_nc(s, p0, "insert") {
                    Ok(_) => match InsertStatement::parse_at(s, p0) {
                        Ok((p1, st)) => Ok((p1, SqlQuery::Insert(st))),
                        Err(e) => {
                            proof {
                                reveal_with_fuel(flatten, 4);
                                assert(flatten(e).contexts.len() >= 1);
                            }
                            let others = ParseErrorTree::Alt {
                                first: Box::new(e_cre),
                                second: Box::new(e),
                            };
                            Err(ParseErrorTree::Alt {
                                first: Box::new(e_sel),
                                second: Box::new(others),
                            })
                        },
                    },
                    Err(e_ins) => {
                        proof {
                            reveal_with_fuel(flatten, 4);
                        }
                        let others = ParseErrorTree::Alt {
                            first: Box::new(e_cre),
                            second: Box::new(e_ins),
                        };
                        Err(ParseErrorTree::Alt {
                            first: Box::new(e_sel),
                            second: Box::new(others),
                        })
                    },
                },
            },
        };
        match branch {
            Err(e) => Err(wrap_ctx(e, pos, "Query")),
            Ok((p1, q)) => {
                let n = s.unicode_len();
                let p2 = skip_ws(s, p1);
                if p2 < n && s.get_char(p2) == ';' {
                    Ok((skip_ws(s, p2 + 1), q))
                } else {
                    Err(wrap_ctx(
                        ParseErrorTree::Base { offset: p2, kind: ExpectKind::Char(';') },
                        pos,
                        "Query",
                    ))
                }
            },
        }
    }

    /// Parses one query from the start of the given text, returning the
    /// position after the consumed text.
    pub fn parse_from_raw(input: &str) -> (r: Result<(usize, SqlQuery), ParseErrorTree>)
        ensures
            match r {
                Ok((p, q)) => spec_query(input@, 0) == PRes::Parsed(p as int, q.deep_view()) && p
                    <= input@.len(),
                Err(e) => spec_query(input@, 0) == PRes::<QueryV>::Failed(flatten(e)),
            },
    {
        SqlQuery::parse_at(input, 0)
    }

    /// Parses a whole input as one query, requiring the end of the input
    /// after it, and turns a failure tree into a formatted diagnostic.
    pub fn parse_format_error(input: &str) -> (r: Result<SqlQuery, FormattedError>)
        ensures
            match r {
                Ok(q) => spec_parse_query(input@) == PRes::Parsed(
                    input@.len() as int,
                    q.deep_view(),
                ),
                Err(fe) => spec_parse_query(input@) matches PRes::Failed(e) && fe.deep_view()
                    == spec_format(input@, e),
            },
    {
        match SqlQuery::parse_at(input, 0) {
            Ok((p, q)) => {
                if p == input.unicode_len() {
                    Ok(q)
                } else {
                    Err(crate::parse_error::format_parse_error(
                        input,
                        ParseErrorTree::Base { offset: p, kind: ExpectKind::Eof },
                    ))
                }
            },
            Err(e) => Err(crate::parse_error::format_parse_error(input, e)),
        }
    }
}

/// Parses one full SQL query, yielding its statement tree or a formatted
/// diagnostic over the original text.
pub fn parse_sql_query(input: &str) -> (r: Result<SqlQuery, FormattedError>)
    ensures
        match r {
            Ok(q) => spec_parse_query(input@) == PRes::Parsed(input@.len() as int, q.deep_view()),
            Err(fe) => spec_parse_query(input@) matches PRes::Failed(e) && fe.deep_view()
                == spec_format(input@, e),
        },
{
    SqlQuery::parse_format_error(input)
}

} // verus!
