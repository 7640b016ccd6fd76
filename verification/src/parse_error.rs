//! The parse-failure model: a tree of low-level failures (base mismatches,
//! context frames, alternatives) and its flattening into one human-readable
//! diagnostic with a primary span and related context spans.

use vstd::prelude::*;

use vstd::utf8::encode_utf8;

verus! {

/// What a failed parse step expected at its position.
#[derive(Debug, Clone, PartialEq, Eq)]
pub enum ExpectKind {
    /// A keyword, matched without regard to ASCII case.
    Tag(String),
    /// One literal character.
    Char(char),
    /// At least one identifier character.
    AlphaNumeric,
    /// At least one whitespace character.
    MultiSpace,
    /// The end of the input.
    Eof,
}

/// Mathematical model of an [`ExpectKind`].
pub ghost enum SpecKind {
    Tag(Seq<char>),
    Char(char),
    AlphaNumeric,
    MultiSpace,
    Eof,
}

impl View for ExpectKind {
    type V = SpecKind;

    open spec fn view(&self) -> SpecKind {
        match self {
            ExpectKind::Tag(t) => SpecKind::Tag(t@),
            ExpectKind::Char(c) => SpecKind::Char(*c),
            ExpectKind::AlphaNumeric => SpecKind::AlphaNumeric,
            ExpectKind::MultiSpace => SpecKind::MultiSpace,
            ExpectKind::Eof => SpecKind::Eof,
        }
    }
}

impl DeepView for ExpectKind {
    type V = SpecKind;

    open spec fn deep_view(&self) -> SpecKind {
        self.view()
    }
}

/// A named grammar rule that was being attempted, recorded at the offset
/// where the rule started.
#[derive(Debug, Clone)]
pub struct ErrorContext {
    pub offset: usize,
    pub name: String,
}

/// Mathematical model of one context frame.
#[verifier::ext_equal]
pub ghost struct SpecCtx {
    pub offset: int,
    pub name: Seq<char>,
}

impl View for ErrorContext {
    type V = SpecCtx;

    open spec fn view(&self) -> SpecCtx {
        SpecCtx { offset: self.offset as int, name: self.name@ }
    }
}

/// A tree of parse failures: a base mismatch at one offset, a context frame
/// wrapping an inner failure, or a choice between the failures of two
/// alternative branches.
#[derive(Debug)]
pub enum ParseErrorTree {
    Base { offset: usize, kind: ExpectKind },
    Stack { base: Box<ParseErrorTree>, context: ErrorContext },
    Alt { first: Box<ParseErrorTree>, second: Box<ParseErrorTree> },
}

/// The flattened form of a failure: the primary offset and kind of the base
/// mismatch, plus the accumulated context frames in outer-to-inner order.
#[verifier::ext_equal]
pub ghost struct SpecErr {
    pub offset: int,
    pub kind: SpecKind,
    pub contexts: Seq<SpecCtx>,
}

/// A base mismatch carries no context frames.
pub open spec fn base_err(offset: int, kind: SpecKind) -> SpecErr {
    SpecErr { offset, kind, contexts: Seq::empty() }
}

/// Wrapping a failure in a context frame prepends the frame, keeping
/// outer-to-inner order.
pub open spec fn push_ctx(e: SpecErr, offset: int, name: Seq<char>) -> SpecErr {
    SpecErr { offset: e.offset, kind: e.kind, contexts: seq![SpecCtx { offset, name }] + e.contexts }
}

/// Of two alternative failures, the one carrying more accumulated context
/// entries is the more informative; ties go to the first.
pub open spec fn pick_alt(a: SpecErr, b: SpecErr) -> SpecErr {
    if b.contexts.len() > a.contexts.len() {
        b
    } else {
        a
    }
}

/// Recursive flattening of a failure tree: the base mismatch becomes the
/// primary offset and kind, context frames accumulate outer-to-inner, and a
/// choice keeps its most informative branch.
pub open spec fn flatten(e: ParseErrorTree) -> SpecErr
    decreases e,
{
    match e {
        ParseErrorTree::Base { offset, kind } => base_err(offset as int, kind@),
        ParseErrorTree::Stack { base, context } => push_ctx(
            flatten(*base),
            context.offset as int,
            context.name@,
        ),
        ParseErrorTree::Alt { first, second } => pick_alt(flatten(*first), flatten(*second)),
    }
}

/// The result of a parse step, in the mathematical model: either the position
/// after the consumed text together with the parsed value, or a flattened
/// failure.
pub ghost enum PRes<T> {
    Parsed(int, T),
    Failed(SpecErr),
}

/// A region of the original source text, measured in bytes; diagnostics use
/// zero-length spans as point labels.
#[derive(Debug, Clone, PartialEq, Eq)]
pub struct Span {
    pub offset: usize,
    pub length: usize,
}

/// Mathematical model of a [`Span`].
#[verifier::ext_equal]
pub ghost struct SpanV {
    pub offset: int,
    pub length: int,
}

impl View for Span {
    type V = SpanV;

    open spec fn view(&self) -> SpanV {
        SpanV { offset: self.offset as int, length: self.length as int }
    }
}

impl DeepView for Span {
    type V = SpanV;

    open spec fn deep_view(&self) -> SpanV {
        self.view()
    }
}

/// One related span of a diagnostic, naming the grammar rule that was being
/// attempted at that position.
#[derive(Debug, Clone)]
pub struct FormattedErrorContext {
    pub span: Span,
    pub context: String,
}

/// Mathematical model of a [`FormattedErrorContext`].
#[verifier::ext_equal]
pub ghost struct FmtCtxV {
    pub span: SpanV,
    pub context: Seq<char>,
}

impl View for FormattedErrorContext {
    type V = FmtCtxV;

    open spec fn view(&self) -> FmtCtxV {
        FmtCtxV { span: self.span@, context: self.context@ }
    }
}

impl DeepView for FormattedErrorContext {
    type V = FmtCtxV;

    open spec fn deep_view(&self) -> FmtCtxV {
        self.view()
    }
}

/// A human-renderable parse diagnostic: the original source text, a primary
/// labeled span, and zero or more related context spans.
#[derive(Debug)]
pub struct FormattedError {
    pub src: String,
    pub span: Span,
    pub kind: ExpectKind,
    pub others: Vec<FormattedErrorContext>,
}

/// Mathematical model of a [`FormattedError`].
#[verifier::ext_equal]
pub ghost struct FmtErrV {
    pub src: Seq<char>,
    pub span: SpanV,
    pub kind: SpecKind,
    pub others: Seq<FmtCtxV>,
}

impl DeepView for FormattedError {
    type V = FmtErrV;

    open spec fn deep_view(&self) -> FmtErrV {
        FmtErrV {
            src: self.src@,
            span: self.span@,
            kind: self.kind@,
            others: self.others.deep_view(),
        }
    }
}

/// The byte offset into the UTF-8 encoding of the text at which its
/// `pos`-th character starts; positions past the end mean the end.
pub open spec fn spec_byte_offset(s: Seq<char>, pos: int) -> int {
    if pos <= s.len() {
        encode_utf8(s.take(pos)).len() as int
    } else {
        encode_utf8(s).len() as int
    }
}

/// The diagnostic a flattened failure turns into, over a given source text:
/// the primary span is a zero-length point at the failure position, and each
/// context frame becomes a zero-length related span at its own position,
/// every position converted from a character count to a byte offset into the
/// original text.
pub open spec fn spec_format(src: Seq<char>, e: SpecErr) -> FmtErrV {
    FmtErrV {
        src,
        span: SpanV { offset: spec_byte_offset(src, e.offset), length: 0 },
        kind: e.kind,
        others: Seq::new(
            e.contexts.len(),
            |i: int| FmtCtxV {
                span: SpanV { offset: spec_byte_offset(src, e.contexts[i].offset), length: 0 },
                context: e.contexts[i].name,
            },
        ),
    }
}

/// The byte offset of the `pos`-th character of the text.
fn byte_offset_of(s: &str, pos: usize) -> (r: usize)
    ensures
        r as int == spec_byte_offset(s@, pos as int),
{
    let n = s.unicode_len();
    let p = if pos <= n {
        pos
    } else {
        n
    };
    let prefix = s.substring_char(0, p);
    proof {
        broadcast use vstd::slice::axiom_spec_len;

        if pos <= n {
            assert(prefix@ =~= s@.take(pos as int));
        } else {
            assert(prefix@ =~= s@);
        }
    }
    let bytes = prefix.as_bytes();
    bytes.len()
}

/// Wraps a failure in a context frame naming the grammar rule that was being
/// attempted at the given offset.
pub fn wrap_ctx(e: ParseErrorTree, offset: usize, name: &str) -> (r: ParseErrorTree)
    ensures
        flatten(r) == push_ctx(flatten(e), offset as int, name@),
{
    ParseErrorTree::Stack {
        base: Box::new(e),
        context: ErrorContext { offset, name: String::from_str(name) },
    }
}

/// Converts a tree of parse failures into a single diagnostic: the base
/// mismatch of the most informative branch becomes the primary span, and
/// every wrapping context frame becomes a related span at its own offset, in
/// outer-to-inner order.
pub fn format_parse_error(input: &str, e: ParseErrorTree) -> (r: FormattedError)
    ensures
        r.deep_view() == spec_format(input@, flatten(e)),
    decreases e,
{
    match e {
        ParseErrorTree::Base { offset, kind } => {
            let r = FormattedError {
                src: String::from_str(input),
                span: Span { offset: byte_offset_of(input, offset), length: 0 },
                kind,
                others: Vec::new(),
            };
            proof {
                assert(r.deep_view().others =~= spec_format(input@, flatten(e)).others);
                assert(r.deep_view() =~= spec_format(input@, flatten(e)));
            }
            r
        }
        ParseErrorTree::Stack { base, context } => {
            let ghost inner = flatten(*base);
            let mut f = format_parse_error(input, *base);
            let ghost prior = f.others@;
            let frame = FormattedErrorContext {
                span: Span { offset: byte_offset_of(input, context.offset), length: 0 },
                context: context.name,
            };
            let ghost frame_v = frame.deep_view();
            f.others.insert(0, frame);
            proof {
                assert(f.others@ =~= seq![frame] + prior);
                assert(f.others.deep_view() =~= seq![frame_v] + prior.map(
                    |i: int, c: FormattedErrorContext| c.deep_view(),
                ));
                assert(prior.map(|i: int, c: FormattedErrorContext| c.deep_view()) =~= spec_format(
                    input@,
                    inner,
                ).others);
                assert(seq![frame_v] + spec_format(input@, inner).others =~= spec_format(
                    input@,
                    push_ctx(inner, context.offset as int, context.name@),
                ).others);
                assert(f.deep_view().others =~= spec_format(
                    input@,
                    push_ctx(inner, context.offset as int, context.name@),
                ).others);
                assert(f.deep_view() =~= spec_format(input@, flatten(e)));
            }
            f
        }
        ParseErrorTree::Alt { first, second } => {
            let f1 = format_parse_error(input, *first);
            let f2 = format_parse_error(input, *second);
            proof {
                assert(f1.others.deep_view().len() == f1.others@.len());
                assert(f2.others.deep_view().len() == f2.others@.len());
            }
            if f2.others.len() > f1.others.len() {
                f2
            } else {
                f1
            }
        }
    }
}

} // verus!
