//! Primitive parsers: whitespace, case-insensitive keywords, identifiers and
//! comma-separated identifier lists, tracked by character position in the
//! input text.

use vstd::prelude::*;

use crate::parse_error::{
    base_err, flatten, ExpectKind, PRes, ParseErrorTree, SpecKind,
};

verus! {

/// The whitespace characters the grammar skips: space, tab, carriage return,
/// line feed.
pub open spec fn is_space(c: char) -> bool {
    c == ' ' || c == '\t' || c == '\r' || c == '\n'
}

/// What `char::is_alphanumeric` returns on a character beyond ASCII: a
/// function of the character alone, given by Unicode's letter and number
/// categories.
pub uninterp spec fn unicode_alphanumeric(c: char) -> bool;

/// Identifier characters: the alphanumeric characters. Within ASCII these
/// are exactly the letters and digits; beyond ASCII they are whatever
/// Unicode counts as a letter or a number.
pub open spec fn is_ident_char(c: char) -> bool {
    if (c as u32) < 128 {
        ||| 'a' as u32 <= c as u32 && c as u32 <= 'z' as u32
        ||| 'A' as u32 <= c as u32 && c as u32 <= 'Z' as u32
        ||| '0' as u32 <= c as u32 && c as u32 <= '9' as u32
    } else {
        unicode_alphanumeric(c)
    }
}

/// Relies on `char::is_alphanumeric`: within ASCII it accepts exactly the
/// letters and digits, and beyond ASCII its result is a function of the
/// character alone (the Unicode letter and number categories).
#[verifier::external_body]
fn char_is_alphanumeric(c: char) -> (r: bool)
    ensures
        r == is_ident_char(c),
        c as u32 >= 128 ==> r == unicode_alphanumeric(c),
{
    c.is_alphanumeric()
}

/// Code point used for case-insensitive keyword matching: an ASCII upper-case
/// letter compares equal to its lower-case form.
pub open spec fn lower_code(c: char) -> int {
    if 'A' as u32 <= c as u32 && c as u32 <= 'Z' as u32 {
        c as int + 32
    } else {
        c as int
    }
}

fn is_space_char(c: char) -> (r: bool)
    ensures
        r == is_space(c),
{
    c == ' ' || c == '\t' || c == '\r' || c == '\n'
}

fn eq_ignore_case(a: char, b: char) -> (r: bool)
    ensures
        r == (lower_code(a) == lower_code(b)),
{
    let ua = a as u32;
    let ub = b as u32;
    let la = if 'A' as u32 <= ua && ua <= 'Z' as u32 {
        ua + 32
    } else {
        ua
    };
    let lb = if 'A' as u32 <= ub && ub <= 'Z' as u32 {
        ub + 32
    } else {
        ub
    };
    la == lb
}

/// The first position at or after `pos` holding no whitespace character.
pub open spec fn spec_skip_ws(s: Seq<char>, pos: int) -> int
    decreases s.len() - pos,
{
    if 0 <= pos < s.len() && is_space(s[pos]) {
        spec_skip_ws(s, pos + 1)
    } else {
        pos
    }
}

pub proof fn lemma_skip_ws_bounds(s: Seq<char>, pos: int)
    requires
        0 <= pos <= s.len(),
    ensures
        pos <= spec_skip_ws(s, pos) <= s.len(),
    decreases s.len() - pos,
{
    if pos < s.len() && is_space(s[pos]) {
        lemma_skip_ws_bounds(s, pos + 1);
    }
}

/// Skips zero or more whitespace characters.
pub fn skip_ws(s: &str, pos: usize) -> (r: usize)
    requires
        pos <= s@.len(),
    ensures
        r == spec_skip_ws(s@, pos as int),
        pos <= r <= s@.len(),
{
    let n = s.unicode_len();
    let mut i = pos;
    while i < n && is_space_char(s.get_char(i))
        invariant
            pos <= i <= n,
            n == s@.len(),
            spec_skip_ws(s@, pos as int) == spec_skip_ws(s@, i as int),
        decreases n - i,
    {
        i = i + 1;
    }
    i
}

/// One or more whitespace characters: fails at `pos` if none is there, and
/// otherwise consumes the whole whitespace run.
pub open spec fn spec_ws1(s: Seq<char>, pos: int) -> PRes<()> {
    if pos < s.len() && is_space(s[pos]) {
        PRes::Parsed(spec_skip_ws(s, pos + 1), ())
    } else {
        PRes::Failed(base_err(pos, SpecKind::MultiSpace))
    }
}

/// Parses at least one whitespace character, then any further whitespace.
pub fn ws1(s: &str, pos: usize) -> (r: Result<usize, ParseErrorTree>)
    requires
        pos <= s@.len(),
    ensures
        match r {
            Ok(p) => spec_ws1(s@, pos as int) == PRes::Parsed(p as int, ()) && pos < p <= s@.len(),
            Err(e) => spec_ws1(s@, pos as int) == PRes::<()>::Failed(flatten(e)),
        },
{
    let n = s.unicode_len();
    if pos < n && is_space_char(s.get_char(pos)) {
        Ok(skip_ws(s, pos + 1))
    } else {
        Err(ParseErrorTree::Base { offset: pos, kind: ExpectKind::MultiSpace })
    }
}

/// The end of the run of identifier characters starting at `pos`.
pub open spec fn spec_ident_end(s: Seq<char>, pos: int) -> int
    decreases s.len() - pos,
{
    if 0 <= pos < s.len() && is_ident_char(s[pos]) {
        spec_ident_end(s, pos + 1)
    } else {
        pos
    }
}

pub proof fn lemma_ident_end_bounds(s: Seq<char>, pos: int)
    requires
        0 <= pos <= s.len(),
    ensures
        pos <= spec_ident_end(s, pos) <= s.len(),
    decreases s.len() - pos,
{
    if pos < s.len() && is_ident_char(s[pos]) {
        lemma_ident_end_bounds(s, pos + 1);
    }
}

/// An identifier is one or more consecutive identifier characters; at `pos`
/// the rule takes the longest such run, and fails if it is empty.
pub open spec fn spec_identifier(s: Seq<char>, pos: int) -> PRes<Seq<char>> {
    let end = spec_ident_end(s, pos);
    if end > pos {
        PRes::Parsed(end, s.subrange(pos, end))
    } else {
        PRes::Failed(base_err(pos, SpecKind::AlphaNumeric))
    }
}

/// Parses an identifier (a column, table or bare value token).
pub fn identifier(s: &str, pos: usize) -> (r: Result<(usize, String), ParseErrorTree>)
    requires
        pos <= s@.len(),
    ensures
        match r {
            Ok((p, id)) => spec_identifier(s@, pos as int) == PRes::Parsed(p as int, id@) && pos
                < p <= s@.len(),
            Err(e) => spec_identifier(s@, pos as int) == PRes::<Seq<char>>::Failed(flatten(e)),
        },
{
    let n = s.unicode_len();
    let mut i = pos;
    while i < n && char_is_alphanumeric(s.get_char(i))
        invariant
            pos <= i <= n,
            n == s@.len(),
            spec_ident_end(s@, pos as int) == spec_ident_end(s@, i as int),
        decreases n - i,
    {
        i = i + 1;
    }
    if i > pos {
        let piece = s.substring_char(pos, i);
        Ok((i, String::from_str(piece)))
    } else {
        Err(ParseErrorTree::Base { offset: pos, kind: ExpectKind::AlphaNumeric })
    }
}

/// Case-insensitive match of `tag` against the text starting at `pos`.
pub open spec fn match_tag_nc(s: Seq<char>, pos: int, tag: Seq<char>) -> bool {
    &&& pos + tag.len() <= s.len()
    &&& forall|i: int|
        0 <= i < tag.len() ==> lower_code(s[pos + i]) == lower_code(#[trigger] tag[i])
}

/// A keyword either matches case-insensitively, consuming its own length, or
/// fails at `pos` expecting that keyword.
pub open spec fn spec_tag_nc(s: Seq<char>, pos: int, tag: Seq<char>) -> PRes<()> {
    if match_tag_nc(s, pos, tag) {
        PRes::Parsed(pos + tag.len(), ())
    } else {
        PRes::Failed(base_err(pos, SpecKind::Tag(tag)))
    }
}

/// Parses the given keyword without regard to ASCII case.
pub fn tag_nc(s: &str, pos: usize, tag: &str) -> (r: Result<usize, ParseErrorTree>)
    requires
        pos <= s@.len(),
    ensures
        match r {
            Ok(p) => spec_tag_nc(s@, pos as int, tag@) == PRes::Parsed(p as int, ()) && p == pos
                + tag@.len() && p <= s@.len(),
            Err(e) => spec_tag_nc(s@, pos as int, tag@) == PRes::<()>::Failed(flatten(e)),
        },
{
    let n = s.unicode_len();
    let m = tag.unicode_len();
    if m > n - pos {
        return Err(ParseErrorTree::Base { offset: pos, kind: ExpectKind::Tag(String::from_str(tag)) });
    }
    let mut i: usize = 0;
    while i < m
        invariant
            i <= m,
            pos + m <= n,
            n == s@.len(),
            m == tag@.len(),
            forall|j: int| 0 <= j < i ==> lower_code(s@[pos + j]) == lower_code(#[trigger] tag@[j]),
        decreases m - i,
    {
        let a = s.get_char(pos + i);
        let b = tag.get_char(i);
        if !eq_ignore_case(a, b) {
            proof {
                assert(lower_code(s@[pos + i]) != lower_code(tag@[i as int]));
            }
            return Err(ParseErrorTree::Base {
                offset: pos,
                kind: ExpectKind::Tag(String::from_str(tag)),
            });
        }
        i = i + 1;
    }
    Ok(pos + m)
}

/// The continuation of a comma-separated identifier list: whenever a comma
/// (with optional surrounding whitespace) followed by an identifier can be
/// consumed, both are, and the identifier joins the list; the first position
/// where that fails ends the list, consuming nothing beyond the last
/// identifier.
pub open spec fn spec_ids_more(s: Seq<char>, pos: int, acc: Seq<Seq<char>>) -> (int, Seq<
    Seq<char>,
>)
    decreases s.len() - pos,
    when 0 <= pos <= s.len()
    via spec_ids_more_decreases
{
    let p1 = spec_skip_ws(s, pos);
    if p1 < s.len() && s[p1] == ',' {
        let p2 = spec_skip_ws(s, p1 + 1);
        match spec_identifier(s, p2) {
            PRes::Parsed(p3, id) => spec_ids_more(s, p3, acc.push(id)),
            PRes::Failed(e) => (pos, acc),
        }
    } else {
        (pos, acc)
    }
}

#[via_fn]
proof fn spec_ids_more_decreases(s: Seq<char>, pos: int, acc: Seq<Seq<char>>) {
    lemma_skip_ws_bounds(s, pos);
    let p1 = spec_skip_ws(s, pos);
    if p1 < s.len() && s[p1] == ',' {
        lemma_skip_ws_bounds(s, p1 + 1);
        let p2 = spec_skip_ws(s, p1 + 1);
        lemma_ident_end_bounds(s, p2);
    }
}

/// A comma-separated identifier list: one identifier, then as many
/// comma-identifier pairs as can be consumed.
pub open spec fn spec_comma_sep_ids(s: Seq<char>, pos: int) -> PRes<Seq<Seq<char>>> {
    match spec_identifier(s, pos) {
        PRes::Failed(e) => PRes::Failed(e),
        PRes::Parsed(p1, id) => {
            let (p2, ids) = spec_ids_more(s, p1, seq![id]);
            PRes::Parsed(p2, ids)
        },
    }
}

/// Parses a comma-separated list of identifiers, at least one.
pub fn comma_sep_identifiers(s: &str, pos: usize) -> (r: Result<
    (usize, Vec<String>),
    ParseErrorTree,
>)
    requires
        pos <= s@.len(),
    ensures
        match r {
            Ok((p, ids)) => spec_comma_sep_ids(s@, pos as int) == PRes::Parsed(
                p as int,
                ids.deep_view(),
            ) && pos < p <= s@.len() && ids@.len() >= 1,
            Err(e) => spec_comma_sep_ids(s@, pos as int) == PRes::<Seq<Seq<char>>>::Failed(
                flatten(e),
            ),
        },
{
    let n = s.unicode_len();
    let first = match identifier(s, pos) {
        Ok(ok) => ok,
        Err(e) => {
            return Err(e);
        },
    };
    let mut p: usize = first.0;
    let ghost first_v = first.1@;
    let mut ids: Vec<String> = Vec::new();
    ids.push(first.1);
    let ghost start_p = p as int;
    let ghost start_acc = ids.deep_view();
    proof {
        assert(start_acc =~= seq![first_v]);
    }
    let mut done = false;
    while !done
        invariant
            n == s@.len(),
            pos < p <= n,
            ids@.len() >= 1,
            spec_ids_more(s@, p as int, ids.deep_view()) == spec_ids_more(s@, start_p, start_acc),
            done ==> spec_ids_more(s@, p as int, ids.deep_view()) == (p as int, ids.deep_view()),
        decreases n - p + (if done { 0int } else { 1int }),
    {
        let sp = skip_ws(s, p);
        if sp < n && s.get_char(sp) == ',' {
            let p2 = skip_ws(s, sp + 1);
            match identifier(s, p2) {
                Ok((p3, id)) => {
                    let ghost prior_acc = ids.deep_view();
                    let ghost id_v = id@;
                    ids.push(id);
                    proof {
                        assert(ids.deep_view() =~= prior_acc.push(id_v));
                    }
                    p = p3;
                },
                Err(_) => {
                    done = true;
                },
            }
        } else {
            done = true;
        }
    }
    Ok((p, ids))
}

} // verus!
