use uiuapp::highlighting::{
    check_spans, css_class, css_of_prim, highlight_code, html_class_of, html_class_of_prim,
    html_class_of_prim_sub, prim_class, spans_source, CodeSpan, SpanKind, UiuappHistorySpan,
};
use uiuapp::{NumericSubscript, Prim, PrimGroup, PrimInfo, Subscript};

fn numbered(n: i32) -> Option<Subscript> {
    Some(Subscript { num: Some(NumericSubscript::N(n)) })
}

fn plain(args: Option<usize>) -> PrimInfo {
    PrimInfo {
        glyph: None,
        args,
        modifier_args: None,
        sig_args: args,
        class: PrimGroup::Other,
    }
}

fn styled(class: &str, text: &str) -> UiuappHistorySpan {
    UiuappHistorySpan::StyledCode { class: class.to_string(), text: text.to_string() }
}

fn space(text: &str) -> UiuappHistorySpan {
    UiuappHistorySpan::Whitspace(text.to_string())
}

#[test]
fn css_class_goes_by_arity() {
    assert_eq!(css_class(Prim::Add, Some(0), None), "noadic-function");
    assert_eq!(css_class(Prim::Add, Some(1), None), "monadic-function");
    assert_eq!(css_class(Prim::Add, Some(2), None), "dyadic-function");
    assert_eq!(css_class(Prim::Add, Some(3), None), "");
    assert_eq!(css_class(Prim::Add, None, Some(1)), "monadic-modifier");
    assert_eq!(css_class(Prim::Add, None, Some(2)), "dyadic-modifier");
    assert_eq!(css_class(Prim::Add, None, Some(0)), "");
    assert_eq!(css_class(Prim::Add, None, Some(3)), "");
    assert_eq!(css_class(Prim::Add, None, None), "");
}

#[test]
fn css_class_counts_values_before_functions() {
    assert_eq!(css_class(Prim::Scan, Some(1), Some(1)), "monadic-function");
    assert_eq!(css_class(Prim::Scan, Some(5), Some(1)), "");
}

#[test]
fn css_class_special_cases_override_arity() {
    assert_eq!(css_class(Prim::Transpose, Some(1), None), "uiua-trans");
    assert_eq!(css_class(Prim::Transpose, None, None), "uiua-trans");
    assert_eq!(css_class(Prim::Identity, Some(1), None), "stack-function");
    assert_eq!(css_class(Prim::Identity, None, Some(2)), "stack-function");
}

#[test]
fn css_of_prim_asks_the_language() {
    assert_eq!(css_of_prim(&Prim::Transpose), "uiua-trans");
    assert_eq!(css_of_prim(&Prim::Identity), "stack-function");
    assert_eq!(css_of_prim(&Prim::Add), "dyadic-function");
    assert_eq!(css_of_prim(&Prim::Not), "monadic-function");
    assert_eq!(css_of_prim(&Prim::Rand), "noadic-function");
    assert_eq!(css_of_prim(&Prim::Eta), "noadic-function");
    assert_eq!(css_of_prim(&Prim::Un), "monadic-modifier");
    assert_eq!(css_of_prim(&Prim::Reduce), "monadic-modifier");
    assert_eq!(css_of_prim(&Prim::Under), "dyadic-modifier");
    assert_eq!(css_of_prim(&Prim::Scan), "monadic-function");
    assert_eq!(css_of_prim(&Prim::Stencil), "dyadic-function");
    assert_eq!(css_of_prim(&Prim::Assert), "dyadic-function");
    assert_eq!(css_of_prim(&Prim::Stack), "noadic-function");
}

#[test]
fn css_of_prim_is_total() {
    let known = [
        "uiua-trans",
        "stack-function",
        "noadic-function",
        "monadic-function",
        "dyadic-function",
        "monadic-modifier",
        "dyadic-modifier",
        "",
    ];
    for cell in uiuapp::button_icons() {
        for icon in cell {
            if let uiuapp::Icon::Single(p) = icon {
                assert!(known.contains(&css_of_prim(&p)), "{:?}", p);
            }
        }
    }
}

#[test]
fn prim_class_puts_modifiers_first() {
    let mut info = plain(Some(1));
    info.modifier_args = Some(1);
    info.class = PrimGroup::Stack;
    assert_eq!(prim_class("transpose", &info, Some(2)), Some("monadic-modifier"));
    info.modifier_args = Some(2);
    assert_eq!(prim_class("identity", &info, None), Some("dyadic-modifier"));
    info.modifier_args = Some(3);
    assert_eq!(prim_class("x", &info, None), Some("dyadic-modifier"));
}

#[test]
fn prim_class_knows_stack_debug_identity_and_transpose() {
    let mut info = plain(Some(2));
    info.class = PrimGroup::Stack;
    assert_eq!(prim_class("flip", &info, None), Some("stack-function"));
    info.class = PrimGroup::Debug;
    assert_eq!(prim_class("anything", &info, Some(1)), Some("stack-function"));
    info.class = PrimGroup::Other;
    assert_eq!(prim_class("identity", &info, None), Some("stack-function"));
    assert_eq!(prim_class("transpose", &info, None), Some("uiua-trans"));
    info.class = PrimGroup::Stack;
    assert_eq!(prim_class("transpose", &info, None), Some("stack-function"));
}

#[test]
fn prim_class_prefers_the_subscripted_arity() {
    assert_eq!(prim_class("x", &plain(Some(2)), None), Some("dyadic-function"));
    assert_eq!(prim_class("x", &plain(Some(2)), Some(1)), Some("monadic-function"));
    assert_eq!(prim_class("x", &plain(Some(2)), Some(0)), Some("noadic-function"));
    assert_eq!(prim_class("x", &plain(Some(2)), Some(3)), None);
    assert_eq!(prim_class("x", &plain(Some(3)), None), None);
    assert_eq!(prim_class("x", &plain(None), None), None);
    assert_eq!(prim_class("x", &plain(None), Some(2)), Some("dyadic-function"));
}

#[test]
fn html_class_of_prim_asks_the_language() {
    assert_eq!(html_class_of_prim("reduce", None), Some("monadic-modifier"));
    assert_eq!(html_class_of_prim("under", None), Some("dyadic-modifier"));
    assert_eq!(html_class_of_prim("scan", None), Some("monadic-modifier"));
    assert_eq!(html_class_of_prim("pop", None), Some("stack-function"));
    assert_eq!(html_class_of_prim("duplicate", None), Some("stack-function"));
    assert_eq!(html_class_of_prim("stack", None), Some("stack-function"));
    assert_eq!(html_class_of_prim("identity", None), Some("stack-function"));
    assert_eq!(html_class_of_prim("transpose", None), Some("uiua-trans"));
    assert_eq!(html_class_of_prim("add", None), Some("dyadic-function"));
    assert_eq!(html_class_of_prim("add", Some(1)), Some("monadic-function"));
    assert_eq!(html_class_of_prim("random", None), Some("noadic-function"));
    assert_eq!(html_class_of_prim("regex", None), Some("dyadic-function"));
    assert_eq!(html_class_of_prim("insert", None), None);
    assert_eq!(html_class_of_prim("&p", None), Some("monadic-function"));
    assert_eq!(html_class_of_prim("no such primitive", None), None);
    assert_eq!(html_class_of_prim("no such primitive", Some(1)), None);
}

#[test]
fn html_class_of_prim_sub_lets_the_subscript_set_the_arity() {
    assert_eq!(html_class_of_prim_sub(Some("add"), numbered(2)), Some("monadic-function"));
    assert_eq!(html_class_of_prim_sub(Some("add"), None), Some("dyadic-function"));
    assert_eq!(html_class_of_prim_sub(Some("couple"), numbered(3)), None);
    assert_eq!(html_class_of_prim_sub(Some("couple"), numbered(1)), Some("monadic-function"));
    assert_eq!(
        html_class_of_prim_sub(Some("couple"), Some(Subscript { num: None })),
        Some("dyadic-function")
    );
    assert_eq!(
        html_class_of_prim_sub(
            Some("couple"),
            Some(Subscript { num: Some(NumericSubscript::NegOnly) })
        ),
        Some("dyadic-function")
    );
    assert_eq!(
        html_class_of_prim_sub(
            Some("join"),
            Some(Subscript { num: Some(NumericSubscript::TooLarge) })
        ),
        Some("dyadic-function")
    );
    assert_eq!(html_class_of_prim_sub(Some("join"), numbered(4)), Some("monadic-function"));
    assert_eq!(html_class_of_prim_sub(Some("first"), numbered(2)), Some("monadic-function"));
    assert_eq!(html_class_of_prim_sub(Some("box"), numbered(0)), Some("noadic-function"));
    assert_eq!(html_class_of_prim_sub(Some("box"), numbered(2)), Some("dyadic-function"));
    assert_eq!(html_class_of_prim_sub(Some("rows"), numbered(2)), Some("monadic-modifier"));
    assert_eq!(html_class_of_prim_sub(None, numbered(2)), None);
    assert_eq!(html_class_of_prim_sub(None, None), None);
}

#[test]
fn html_class_of_fixed_kinds() {
    assert_eq!(html_class_of(&SpanKind::String), Some("string-literal"));
    assert_eq!(html_class_of(&SpanKind::Number), Some("constant-value"));
    assert_eq!(html_class_of(&SpanKind::Comment), Some("comment"));
    assert_eq!(html_class_of(&SpanKind::OutputComment), Some("comment"));
    assert_eq!(html_class_of(&SpanKind::Strand), Some("strand"));
    assert_eq!(html_class_of(&SpanKind::Obverse), Some("monadic-modifier"));
}

#[test]
fn html_class_of_delimiters() {
    assert_eq!(html_class_of(&SpanKind::FuncDelim(0)), None);
    assert_eq!(html_class_of(&SpanKind::FuncDelim(1)), Some("monadic-function"));
    assert_eq!(html_class_of(&SpanKind::FuncDelim(2)), Some("dyadic-function"));
    assert_eq!(html_class_of(&SpanKind::FuncDelim(3)), None);
    assert_eq!(html_class_of(&SpanKind::MacroDelim(0)), None);
    assert_eq!(html_class_of(&SpanKind::MacroDelim(1)), Some("monadic-modifier"));
    assert_eq!(html_class_of(&SpanKind::MacroDelim(2)), Some("dyadic-modifier"));
    assert_eq!(html_class_of(&SpanKind::MacroDelim(3)), None);
}

#[test]
fn html_class_of_primitives_and_subscripts() {
    assert_eq!(html_class_of(&SpanKind::Primitive("add", None)), Some("dyadic-function"));
    assert_eq!(
        html_class_of(&SpanKind::Primitive("add", numbered(1))),
        Some("monadic-function")
    );
    assert_eq!(html_class_of(&SpanKind::Primitive("table", None)), Some("monadic-modifier"));
    assert_eq!(
        html_class_of(&SpanKind::Subscript(Some("add"), numbered(1))),
        Some("monadic-function")
    );
    assert_eq!(html_class_of(&SpanKind::Subscript(Some("add"), None)), None);
    assert_eq!(html_class_of(&SpanKind::Subscript(None, numbered(1))), None);
    assert_eq!(html_class_of(&SpanKind::Subscript(None, None)), None);
}

#[test]
fn html_class_of_unstyled_kinds() {
    for kind in [
        SpanKind::Ident,
        SpanKind::Label,
        SpanKind::Signature,
        SpanKind::Whitespace,
        SpanKind::Placeholder,
        SpanKind::Delimiter,
        SpanKind::LexOrder,
        SpanKind::ImportSrc,
    ] {
        assert_eq!(html_class_of(&kind), None, "{:?}", kind);
    }
}

#[test]
fn span_markup() {
    assert_eq!(styled("dyadic-function", "+").to_string(), "<span class=dyadic-function>+</span>");
    assert_eq!(styled("", "").to_string(), "<span class=></span>");
    assert_eq!(
        UiuappHistorySpan::UnstyledCode { text: "abc".to_string() }.to_string(),
        "abc"
    );
    assert_eq!(space("  \n").to_string(), "  \n");
}

#[test]
fn span_source_and_clone() {
    let spans = vec![
        space(""),
        styled("dyadic-function", "+"),
        space(" "),
        UiuappHistorySpan::UnstyledCode { text: "x".to_string() },
        space(" "),
        styled("constant-value", "1"),
    ];
    assert_eq!(spans_source(&spans), "+ x 1");
    assert_eq!(spans_source(&Vec::new()), "");
    assert_eq!(spans[1].source(), "+");
    for span in &spans {
        assert_eq!(&span.clone(), span);
    }
}

#[test]
fn highlights_simple_code() {
    let code = "+ 1 1";
    let spans = vec![
        CodeSpan { start: 0, end: 1, kind: SpanKind::Primitive("add", None) },
        CodeSpan { start: 2, end: 3, kind: SpanKind::Number },
        CodeSpan { start: 4, end: 5, kind: SpanKind::Number },
    ];
    assert!(check_spans(code, &spans));
    assert_eq!(
        highlight_code(code, &spans),
        vec![
            space(""),
            styled("dyadic-function", "+"),
            space(" "),
            styled("constant-value", "1"),
            space(" "),
            styled("constant-value", "1"),
        ]
    );
}

#[test]
fn highlights_glyphs_of_several_bytes() {
    let code = "˙⊞=⇡3";
    let spans = vec![
        CodeSpan { start: 0, end: 2, kind: SpanKind::Primitive("self", None) },
        CodeSpan { start: 2, end: 5, kind: SpanKind::Primitive("table", None) },
        CodeSpan { start: 5, end: 6, kind: SpanKind::Primitive("equals", None) },
        CodeSpan { start: 6, end: 9, kind: SpanKind::Primitive("range", None) },
        CodeSpan { start: 9, end: 10, kind: SpanKind::Number },
    ];
    assert!(check_spans(code, &spans));
    assert_eq!(
        highlight_code(code, &spans),
        vec![
            space(""),
            styled("monadic-modifier", "˙"),
            space(""),
            styled("monadic-modifier", "⊞"),
            space(""),
            styled("dyadic-function", "="),
            space(""),
            styled("monadic-function", "⇡"),
            space(""),
            styled("constant-value", "3"),
        ]
    );
}

#[test]
fn highlighting_trims_ends_and_keeps_the_space_before() {
    let code = "a \t\n  b  ";
    let spans = vec![
        CodeSpan { start: 0, end: 3, kind: SpanKind::Ident },
        CodeSpan { start: 6, end: 9, kind: SpanKind::Ident },
        CodeSpan { start: 2, end: 2, kind: SpanKind::Label },
    ];
    assert!(check_spans(code, &spans));
    assert_eq!(
        highlight_code(code, &spans),
        vec![
            space(""),
            UiuappHistorySpan::UnstyledCode { text: "a".to_string() },
            space(" \t\n  "),
            UiuappHistorySpan::UnstyledCode { text: "b".to_string() },
            space(" "),
            UiuappHistorySpan::UnstyledCode { text: "".to_string() },
        ]
    );
    assert_eq!(highlight_code(code, &Vec::new()), Vec::new());
}

#[test]
fn spans_must_hold_whole_characters() {
    let code = "˙⊞";
    let whole = CodeSpan { start: 0, end: 5, kind: SpanKind::Ident };
    let split = CodeSpan { start: 0, end: 1, kind: SpanKind::Ident };
    let inside = CodeSpan { start: 3, end: 5, kind: SpanKind::Ident };
    let backwards = CodeSpan { start: 2, end: 0, kind: SpanKind::Ident };
    let beyond = CodeSpan { start: 2, end: 6, kind: SpanKind::Ident };
    let empty_at_end = CodeSpan { start: 5, end: 5, kind: SpanKind::Ident };
    assert!(check_spans(code, &vec![whole, empty_at_end]));
    assert!(!check_spans(code, &vec![whole, split]));
    assert!(!check_spans(code, &vec![inside]));
    assert!(!check_spans(code, &vec![backwards]));
    assert!(!check_spans(code, &vec![beyond]));
    assert!(check_spans(code, &Vec::new()));
}
