use uiuapp::icon::glyph_or_unknown;
use uiuapp::{Icon, Prim, PrimGroup, PrimInfo, EXPERIMENTAL_ICON, UNKNOWN_GLYPH};

fn info(glyph: Option<char>) -> PrimInfo {
    PrimInfo {
        glyph,
        args: Some(1),
        modifier_args: None,
        sig_args: Some(1),
        class: PrimGroup::Other,
    }
}

#[test]
fn constants_are_as_shown_on_the_keys() {
    assert_eq!(UNKNOWN_GLYPH, '¡');
    assert_eq!(EXPERIMENTAL_ICON, "🧪");
}

#[test]
fn glyph_falls_back_to_the_placeholder() {
    assert_eq!(glyph_or_unknown(Some(info(Some('⍉')))), '⍉');
    assert_eq!(glyph_or_unknown(Some(info(None))), '¡');
    assert_eq!(glyph_or_unknown(None), '¡');
}

#[test]
fn primitives_know_their_glyphs() {
    assert_eq!(Prim::Identity.glyph(), '∘');
    assert_eq!(Prim::Transpose.glyph(), '⍉');
    assert_eq!(Prim::Add.glyph(), '+');
    assert_eq!(Prim::Scan.glyph(), '\\');
    assert_eq!(Prim::Modulus.glyph(), '◿');
}

#[test]
fn single_types_its_glyph() {
    let mut input = String::from("ab");
    Icon::Single(Prim::Range).type_into(&mut input);
    assert_eq!(input, "ab⇡");
    assert_eq!(Icon::Single(Prim::Range).label(), "⇡");
}

#[test]
fn idiom_types_its_glyphs_in_order() {
    let idiom = Icon::Idiom(vec![Prim::Sub, Prim::By, Prim::Not]);
    let mut input = String::new();
    idiom.type_into(&mut input);
    assert_eq!(input, "-⊸¬");
    idiom.type_into(&mut input);
    assert_eq!(input, "-⊸¬-⊸¬");
    assert_eq!(idiom.label(), "-⊸¬");
    assert_eq!(Icon::Idiom(Vec::new()).label(), "");
}

#[test]
fn literal_types_itself() {
    let mut input = String::new();
    Icon::Exper(("0", "constant-value")).type_into(&mut input);
    Icon::Exper(("₃", "constant-value")).type_into(&mut input);
    Icon::Exper(("Empty", "")).type_into(&mut input);
    assert_eq!(input, "0₃Empty");
}

#[test]
fn experimental_placeholder_types_nothing_but_shows() {
    let icon = Icon::Exper((EXPERIMENTAL_ICON, ""));
    let mut input = String::from("1");
    icon.type_into(&mut input);
    assert_eq!(input, "1");
    assert_eq!(icon.label(), "🧪");
    let mut shown = String::from("1");
    icon.show_into(&mut shown);
    assert_eq!(shown, "1🧪");
}

#[test]
fn clone_keeps_the_icon() {
    let icons = vec![
        Icon::Single(Prim::Tau),
        Icon::Idiom(vec![Prim::Sub, Prim::By, Prim::Not]),
        Icon::Exper(("5", "constant-value")),
    ];
    for icon in &icons {
        assert_eq!(&icon.clone(), icon);
    }
}

#[test]
fn info_comes_from_the_language() {
    let info = Prim::Couple.info().unwrap();
    assert_eq!(info.glyph, Some('⊟'));
    assert_eq!(info.args, Some(2));
    assert_eq!(info.modifier_args, None);
    assert_eq!(info.sig_args, Some(2));
    assert_eq!(info.class, PrimGroup::Other);
    let info = Prim::Pop.info().unwrap();
    assert_eq!(info.class, PrimGroup::Stack);
    assert_eq!(info.args, Some(1));
    let info = Prim::Stack.info().unwrap();
    assert_eq!(info.class, PrimGroup::Debug);
    let info = Prim::Under.info().unwrap();
    assert_eq!(info.modifier_args, Some(2));
    assert_eq!(info.args, None);
    assert_eq!(info.sig_args, None);
}
