//! Style classes for primitives and for spans of highlighted code.

use crate::prim::Prim;
use crate::provider::{
    describe, describe_subscripted, primitive_info, subscripted_args, PrimGroup, PrimInfo,
    Subscript,
};
use crate::text::{
    can_cut, cut, cuts_cleanly, piece, same_text, split_trailing_space, trailing_space, trimmed,
};
use vstd::prelude::*;
use vstd::string::StringExecFns;

verus! {

/// A piece of highlighted code as the scrollback keeps it.
#[derive(Debug, PartialEq, Eq)]
pub enum UiuappHistorySpan {
    UnstyledCode { text: String },
    StyledCode {
        /// The style class of the span.
        class: String,
        /// The code itself.
        text: String,
    },
    Whitspace(String),
}

impl Clone for UiuappHistorySpan {
    fn clone(&self) -> (r: Self)
        ensures
            r@ == self@,
    {
        match self {
            UiuappHistorySpan::UnstyledCode { text } => UiuappHistorySpan::UnstyledCode {
                text: text.clone(),
            },
            UiuappHistorySpan::StyledCode { class, text } => UiuappHistorySpan::StyledCode {
                class: class.clone(),
                text: text.clone(),
            },
            UiuappHistorySpan::Whitspace(text) => UiuappHistorySpan::Whitspace(text.clone()),
        }
    }
}

/// The mathematical value of a [`UiuappHistorySpan`].
pub enum SpanView {
    UnstyledCode { text: Seq<char> },
    StyledCode { class: Seq<char>, text: Seq<char> },
    Whitspace(Seq<char>),
}

impl View for UiuappHistorySpan {
    type V = SpanView;

    open spec fn view(&self) -> SpanView {
        match self {
            UiuappHistorySpan::UnstyledCode { text } => SpanView::UnstyledCode { text: text@ },
            UiuappHistorySpan::StyledCode { class, text } => SpanView::StyledCode {
                class: class@,
                text: text@,
            },
            UiuappHistorySpan::Whitspace(text) => SpanView::Whitspace(text@),
        }
    }
}

impl DeepView for UiuappHistorySpan {
    type V = SpanView;

    open spec fn deep_view(&self) -> SpanView {
        self@
    }
}

impl SpanView {
    /// The code that the span stands for.
    pub open spec fn source(self) -> Seq<char> {
        match self {
            SpanView::UnstyledCode { text } => text,
            SpanView::StyledCode { text, .. } => text,
            SpanView::Whitspace(text) => text,
        }
    }

    /// The span written out as markup: styled code inside a `span` element
    /// that names its class, anything else as it is.
    pub open spec fn markup(self) -> Seq<char> {
        match self {
            SpanView::UnstyledCode { text } => text,
            SpanView::StyledCode { class, text } => "<span class="@ + class + ">"@ + text
                + "</span>"@,
            SpanView::Whitspace(text) => text,
        }
    }
}

impl UiuappHistorySpan {
    /// The code that the span stands for.
    pub fn source(&self) -> (r: &str)
        ensures
            r@ == self@.source(),
    {
        match self {
            UiuappHistorySpan::UnstyledCode { text } => text.as_str(),
            UiuappHistorySpan::StyledCode { text, .. } => text.as_str(),
            UiuappHistorySpan::Whitspace(text) => text.as_str(),
        }
    }

    /// The span written out as markup.
    pub fn to_string(&self) -> (r: String)
        ensures
            r@ == self@.markup(),
    {
        match self {
            UiuappHistorySpan::UnstyledCode { text } => text.clone(),
            UiuappHistorySpan::StyledCode { class, text } => {
                let mut r = String::from_str("<span class=");
                r.append(class.as_str());
                r.append(">");
                r.append(text.as_str());
                r.append("</span>");
                r
            },
            UiuappHistorySpan::Whitspace(text) => text.clone(),
        }
    }
}

/// The code that `spans` stand for, put back together.
pub open spec fn source_of(spans: Seq<SpanView>) -> Seq<char>
    decreases spans.len(),
{
    if spans.len() == 0 {
        Seq::empty()
    } else {
        source_of(spans.drop_last()) + spans.last().source()
    }
}

/// Puts the code that `spans` stand for back together, for editing it again.
pub fn spans_source(spans: &Vec<UiuappHistorySpan>) -> (r: String)
    ensures
        r@ == source_of(spans.deep_view()),
{
    let mut r = String::new();
    let mut i: usize = 0;
    while i < spans.len()
        invariant
            i <= spans.len(),
            r@ == source_of(spans.deep_view().take(i as int)),
        decreases spans.len() - i,
    {
        r.append(spans[i].source());
        proof {
            let upto = spans.deep_view().take(i + 1);
            assert(upto.drop_last() =~= spans.deep_view().take(i as int));
            assert(upto.last() == spans[i as int]@);
        }
        i += 1;
    }
    assert(spans.deep_view().take(i as int) =~= spans.deep_view());
    r
}

/// The style class of a key, from the primitive on it and the numbers of
/// values and of functions that the language declares for it. Transpose and
/// identity have classes of their own; the rest go by arity, values first.
pub open spec fn css_class_of(p: Prim, args: Option<usize>, modifier_args: Option<usize>) -> Seq<
    char,
> {
    if p == Prim::Transpose {
        "uiua-trans"@
    } else if p == Prim::Identity {
        "stack-function"@
    } else if let Some(n) = args {
        if n == 0 {
            "noadic-function"@
        } else if n == 1 {
            "monadic-function"@
        } else if n == 2 {
            "dyadic-function"@
        } else {
            ""@
        }
    } else if let Some(n) = modifier_args {
        if n == 1 {
            "monadic-modifier"@
        } else if n == 2 {
            "dyadic-modifier"@
        } else {
            ""@
        }
    } else {
        ""@
    }
}

/// The style class of a key, from the primitive on it and what the language
/// declares for it.
pub fn css_class(p: Prim, args: Option<usize>, modifier_args: Option<usize>) -> (r: &'static str)
    ensures
        r@ == css_class_of(p, args, modifier_args),
{
    if p == Prim::Transpose {
        "uiua-trans"
    } else if p == Prim::Identity {
        "stack-function"
    } else if let Some(n) = args {
        if n == 0 {
            "noadic-function"
        } else if n == 1 {
            "monadic-function"
        } else if n == 2 {
            "dyadic-function"
        } else {
            ""
        }
    } else if let Some(n) = modifier_args {
        if n == 1 {
            "monadic-modifier"
        } else if n == 2 {
            "dyadic-modifier"
        } else {
            ""
        }
    } else {
        ""
    }
}

/// The arities that styling works with when the language knows nothing of a
/// primitive: none at all.
pub open spec fn declared_args(info: Option<PrimInfo>) -> Option<usize> {
    match info {
        Some(i) => i.args,
        None => None,
    }
}

pub open spec fn declared_modifier_args(info: Option<PrimInfo>) -> Option<usize> {
    match info {
        Some(i) => i.modifier_args,
        None => None,
    }
}

/// The style class of the key for `p`. Every primitive has one, if only the
/// empty class.
pub fn css_of_prim(p: &Prim) -> (r: &'static str)
    ensures
        r@ == css_class_of(
            *p,
            declared_args(p.spec_info()),
            declared_modifier_args(p.spec_info()),
        ),
{
    match p.info() {
        Some(info) => css_class(*p, info.args, info.modifier_args),
        None => css_class(*p, None, None),
    }
}

/// The class of a function that takes `n` values, if there is one.
pub open spec fn arity_class_of(n: usize) -> Option<Seq<char>> {
    if n == 0 {
        Some("noadic-function"@)
    } else if n == 1 {
        Some("monadic-function"@)
    } else if n == 2 {
        Some("dyadic-function"@)
    } else {
        None
    }
}

/// The view of an optional class name.
pub open spec fn class_view(class: Option<&'static str>) -> Option<Seq<char>> {
    match class {
        Some(c) => Some(c@),
        None => None,
    }
}

/// The class of a primitive in highlighted code, from its name, what the
/// language reports about it, and the number of values it takes where a
/// subscript has settled that. Modifiers go by the number of functions they
/// take; stack and debug primitives and identity share a class; transpose has
/// its own; the rest go by the number of values.
pub open spec fn prim_class_of(name: Seq<char>, info: PrimInfo, args: Option<usize>) -> Option<
    Seq<char>,
> {
    if let Some(m) = info.modifier_args {
        if m == 1 {
            Some("monadic-modifier"@)
        } else {
            Some("dyadic-modifier"@)
        }
    } else if info.class == PrimGroup::Stack || info.class == PrimGroup::Debug || name
        == Prim::Identity.spec_name() {
        Some("stack-function"@)
    } else if name == Prim::Transpose.spec_name() {
        Some("uiua-trans"@)
    } else {
        let n = if args.is_some() {
            args
        } else {
            info.sig_args
        };
        match n {
            Some(n) => arity_class_of(n),
            None => None,
        }
    }
}

/// The class of a primitive in highlighted code, from its name and what the
/// language reports about it.
pub fn prim_class(name: &str, info: &PrimInfo, args: Option<usize>) -> (r: Option<&'static str>)
    ensures
        class_view(r) == prim_class_of(name@, *info, args),
{
    if let Some(m) = info.modifier_args {
        return if m == 1 {
            Some("monadic-modifier")
        } else {
            Some("dyadic-modifier")
        };
    }
    let stack_like = match info.class {
        PrimGroup::Stack => true,
        PrimGroup::Debug => true,
        PrimGroup::Other => false,
    };
    if stack_like || same_text(name, Prim::Identity.name()) {
        Some("stack-function")
    } else if same_text(name, Prim::Transpose.name()) {
        Some("uiua-trans")
    } else {
        let n = if args.is_some() {
            args
        } else {
            info.sig_args
        };
        match n {
            Some(0) => Some("noadic-function"),
            Some(1) => Some("monadic-function"),
            Some(2) => Some("dyadic-function"),
            _ => None,
        }
    }
}

/// The class of the primitive called `name`, of which the language reports
/// `info`; none where it reports nothing.
pub open spec fn known_prim_class_of(name: Seq<char>, info: Option<PrimInfo>, args: Option<usize>)
    -> Option<Seq<char>> {
    match info {
        Some(i) => prim_class_of(name, i, args),
        None => None,
    }
}

/// The class of the primitive called `prim` in highlighted code, taking
/// `args` values where a subscript has settled that.
pub fn html_class_of_prim(prim: &str, args: Option<usize>) -> (r: Option<&'static str>)
    ensures
        class_view(r) == known_prim_class_of(prim@, primitive_info(prim@), args),
{
    match describe(prim) {
        Some(info) => prim_class(prim, &info, args),
        None => None,
    }
}

/// The class of a primitive with a subscript below it; none without a
/// primitive.
pub open spec fn subscripted_class_of(prim: Option<&'static str>, sub: Option<Subscript>) -> Option<
    Seq<char>,
> {
    match prim {
        Some(name) => known_prim_class_of(
            name@,
            primitive_info(name@),
            subscripted_args(name@, sub),
        ),
        None => None,
    }
}

/// The class of a primitive with a subscript below it.
pub fn html_class_of_prim_sub(prim: Option<&'static str>, sub: Option<Subscript>) -> (r: Option<
    &'static str,
>)
    ensures
        class_view(r) == subscripted_class_of(prim, sub),
{
    match prim {
        Some(name) => {
            let args = describe_subscripted(name, sub);
            html_class_of_prim(name, args)
        },
        None => None,
    }
}

/// What a span of source code is, as far as its styling goes. Primitives are
/// given by the name under which the language knows them.
#[derive(Debug, Clone, Copy, PartialEq, Eq)]
pub enum SpanKind {
    Primitive(&'static str, Option<Subscript>),
    String,
    Number,
    Comment,
    OutputComment,
    Strand,
    Ident,
    Label,
    Signature,
    Whitespace,
    Placeholder,
    Delimiter,
    LexOrder,
    /// A function delimiter, with the number of values the function takes.
    FuncDelim(usize),
    /// A macro delimiter, with the number of functions the macro takes.
    MacroDelim(usize),
    ImportSrc,
    Subscript(Option<&'static str>, Option<Subscript>),
    Obverse,
}

/// The class of a span of highlighted code; `None` for spans shown unstyled.
pub open spec fn span_class_of(s: SpanKind) -> Option<Seq<char>> {
    match s {
        SpanKind::Primitive(p, sub) => subscripted_class_of(Some(p), sub),
        SpanKind::String => Some("string-literal"@),
        SpanKind::Number => Some("constant-value"@),
        SpanKind::Comment => Some("comment"@),
        SpanKind::OutputComment => Some("comment"@),
        SpanKind::Strand => Some("strand"@),
        SpanKind::Obverse => Some("monadic-modifier"@),
        SpanKind::FuncDelim(n) => if n == 1 {
            Some("monadic-function"@)
        } else if n == 2 {
            Some("dyadic-function"@)
        } else {
            None
        },
        SpanKind::MacroDelim(n) => if n == 1 {
            Some("monadic-modifier"@)
        } else if n == 2 {
            Some("dyadic-modifier"@)
        } else {
            None
        },
        SpanKind::Subscript(prim, Some(sub)) => subscripted_class_of(prim, Some(sub)),
        _ => None,
    }
}

/// The class of a span of highlighted code; `None` for spans shown unstyled.
pub fn html_class_of(s: &SpanKind) -> (r: Option<&'static str>)
    ensures
        class_view(r) == span_class_of(*s),
{
    match s {
        SpanKind::Primitive(p, sub) => html_class_of_prim_sub(Some(*p), *sub),
        SpanKind::String => Some("string-literal"),
        SpanKind::Number => Some("constant-value"),
        SpanKind::Comment => Some("comment"),
        SpanKind::OutputComment => Some("comment"),
        SpanKind::Strand => Some("strand"),
        SpanKind::Obverse => Some("monadic-modifier"),
        SpanKind::FuncDelim(n) => {
            if *n == 1 {
                Some("monadic-function")
            } else if *n == 2 {
                Some("dyadic-function")
            } else {
                None
            }
        },
        SpanKind::MacroDelim(n) => {
            if *n == 1 {
                Some("monadic-modifier")
            } else if *n == 2 {
                Some("dyadic-modifier")
            } else {
                None
            }
        },
        SpanKind::Subscript(prim, Some(sub)) => html_class_of_prim_sub(*prim, Some(*sub)),
        SpanKind::Ident
        | SpanKind::Label
        | SpanKind::Signature
        | SpanKind::Whitespace
        | SpanKind::Placeholder
        | SpanKind::Delimiter
        | SpanKind::LexOrder
        | SpanKind::ImportSrc
        | SpanKind::Subscript(_, None) => None,
    }
}

/// A span of source code: the bytes from `start` up to `end`, and what they
/// are.
#[derive(Debug, Clone, Copy, PartialEq, Eq)]
pub struct CodeSpan {
    pub start: usize,
    pub end: usize,
    pub kind: SpanKind,
}

/// Whether every span of `spans` holds whole characters of `code`.
pub open spec fn spans_fit(code: Seq<char>, spans: Seq<CodeSpan>) -> bool {
    forall|i: int|
        0 <= i < spans.len() ==> cuts_cleanly(
            code,
            (#[trigger] spans[i]).start as int,
            spans[i].end as int,
        )
}

/// The white space that stands in `code` right before `span`.
pub open spec fn space_before(code: Seq<char>, span: CodeSpan) -> SpanView {
    SpanView::Whitspace(trailing_space(piece(code, 0, span.start as int)))
}

/// The code of `span` without the white space at its end, under the class of
/// its kind where it has one.
pub open spec fn styled(code: Seq<char>, span: CodeSpan) -> SpanView {
    let text = trimmed(piece(code, span.start as int, span.end as int));
    match span_class_of(span.kind) {
        Some(class) => SpanView::StyledCode { class, text },
        None => SpanView::UnstyledCode { text },
    }
}

/// The highlighted form of `code`: for each span in turn the white space
/// before it, then its code.
pub open spec fn highlighted(code: Seq<char>, spans: Seq<CodeSpan>) -> Seq<SpanView> {
    Seq::new(
        2 * spans.len(),
        |k: int|
            if k % 2 == 0 {
                space_before(code, spans[k / 2])
            } else {
                styled(code, spans[k / 2])
            },
    )
}

/// Whether every span of `spans` holds whole characters of `code`.
pub fn check_spans(code: &str, spans: &Vec<CodeSpan>) -> (r: bool)
    ensures
        r == spans_fit(code@, spans@),
{
    let mut i: usize = 0;
    while i < spans.len()
        invariant
            i <= spans.len(),
            forall|k: int|
                0 <= k < i ==> cuts_cleanly(
                    code@,
                    (#[trigger] spans@[k]).start as int,
                    spans@[k].end as int,
                ),
        decreases spans.len() - i,
    {
        if !can_cut(code, spans[i].start, spans[i].end) {
            return false;
        }
        i += 1;
    }
    true
}

/// Highlights `code`, of which `spans` tells what each part is.
pub fn highlight_code(code: &str, spans: &Vec<CodeSpan>) -> (r: Vec<UiuappHistorySpan>)
    requires
        spans_fit(code@, spans@),
    ensures
        r.deep_view() == highlighted(code@, spans@),
{
    let mut output: Vec<UiuappHistorySpan> = Vec::new();
    let mut i: usize = 0;
    while i < spans.len()
        invariant
            i <= spans.len(),
            spans_fit(code@, spans@),
            output.len() == 2 * i,
            forall|k: int| 0 <= k < output.len() ==> output[k]@ == highlighted(code@, spans@)[k],
        decreases spans.len() - i,
    {
        let span = spans[i];
        assert(cuts_cleanly(code@, spans@[i as int].start as int, spans@[i as int].end as int));
        proof {
            vstd::utf8::encode_utf8_valid_utf8(code@);
            vstd::utf8::is_char_boundary_start_end_of_seq(vstd::utf8::encode_utf8(code@));
        }
        let before = cut(code, 0, span.start);
        let (_, space) = split_trailing_space(before);
        let part = cut(code, span.start, span.end);
        let (text, _) = split_trailing_space(part);
        output.push(UiuappHistorySpan::Whitspace(String::from_str(space)));
        output.push(
            match html_class_of(&span.kind) {
                Some(class) => UiuappHistorySpan::StyledCode {
                    class: String::from_str(class),
                    text: String::from_str(text),
                },
                None => UiuappHistorySpan::UnstyledCode { text: String::from_str(text) },
            },
        );
        i += 1;
    }
    assert(output.deep_view() =~= highlighted(code@, spans@));
    output
}

} // verus!
