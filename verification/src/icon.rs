//! What a single key of the keypad shows and types.

use crate::prim::Prim;
use crate::provider::PrimInfo;
use crate::text::{push_char, same_text};
use vstd::prelude::*;
use vstd::string::StringExecFns;

verus! {

/// Shown in place of a primitive that has no glyph of its own.
pub const UNKNOWN_GLYPH: char = '¡';

/// The literal that marks a key reserved for a later feature; it types nothing.
pub const EXPERIMENTAL_ICON: &'static str = "🧪";

/// One entry of a keypad cell: a primitive, an idiom of several primitives
/// typed together, or a literal string with the style class of its key.
#[derive(Debug, PartialEq)]
pub enum Icon {
    Single(Prim),
    Idiom(Vec<Prim>),
    Exper((&'static str, &'static str)),
}

/// The mathematical value of an [`Icon`].
pub enum IconView {
    Single(Prim),
    Idiom(Seq<Prim>),
    Exper(Seq<char>, Seq<char>),
}

impl View for Icon {
    type V = IconView;

    open spec fn view(&self) -> IconView {
        match *self {
            Icon::Single(p) => IconView::Single(p),
            Icon::Idiom(ps) => IconView::Idiom(ps@),
            Icon::Exper(pair) => IconView::Exper(pair.0@, pair.1@),
        }
    }
}

impl DeepView for Icon {
    type V = IconView;

    open spec fn deep_view(&self) -> IconView {
        self@
    }
}

impl Clone for Icon {
    fn clone(&self) -> (r: Icon)
        ensures
            r@ == self@,
    {
        match self {
            Icon::Single(p) => Icon::Single(*p),
            Icon::Idiom(ps) => {
                let copy = ps.clone();
                assert(copy@ =~= ps@);
                Icon::Idiom(copy)
            },
            Icon::Exper(pair) => Icon::Exper((pair.0, pair.1)),
        }
    }
}

/// The character that stands for a primitive of which the language reports
/// `info`: its glyph, or the placeholder where it has none or is unknown.
pub open spec fn glyph_or_unknown_of(info: Option<PrimInfo>) -> char {
    match info {
        Some(i) => match i.glyph {
            Some(c) => c,
            None => UNKNOWN_GLYPH,
        },
        None => UNKNOWN_GLYPH,
    }
}

/// The character that stands for a primitive of which the language reports
/// `info`.
pub fn glyph_or_unknown(info: Option<PrimInfo>) -> (c: char)
    ensures
        c == glyph_or_unknown_of(info),
{
    match info {
        Some(i) => match i.glyph {
            Some(c) => c,
            None => UNKNOWN_GLYPH,
        },
        None => UNKNOWN_GLYPH,
    }
}

/// The character that stands for `p`.
pub open spec fn glyph_of(p: Prim) -> char {
    glyph_or_unknown_of(p.spec_info())
}

/// The characters that stand for `ps`, in order.
pub open spec fn glyphs_of(ps: Seq<Prim>) -> Seq<char> {
    Seq::new(ps.len(), |i: int| glyph_of(ps[i]))
}

impl IconView {
    /// What the key shows.
    pub open spec fn label(self) -> Seq<char> {
        match self {
            IconView::Single(p) => seq![glyph_of(p)],
            IconView::Idiom(ps) => glyphs_of(ps),
            IconView::Exper(text, _) => text,
        }
    }

    /// What the key types: what it shows, except that the key reserved for a
    /// later feature types nothing.
    pub open spec fn typed(self) -> Seq<char> {
        match self {
            IconView::Exper(text, _) => if text == EXPERIMENTAL_ICON@ {
                Seq::empty()
            } else {
                text
            },
            _ => self.label(),
        }
    }
}

impl Prim {
    /// The character that stands for this primitive.
    pub fn glyph(&self) -> (c: char)
        ensures
            c == glyph_of(*self),
    {
        glyph_or_unknown(self.info())
    }
}

/// Appends the characters that stand for `ps` to `text`.
fn push_glyphs(text: &mut String, ps: &Vec<Prim>)
    ensures
        final(text)@ == old(text)@ + glyphs_of(ps@),
{
    let mut i: usize = 0;
    while i < ps.len()
        invariant
            i <= ps.len(),
            text@ == old(text)@ + glyphs_of(ps@).take(i as int),
        decreases ps.len() - i,
    {
        let c = ps[i].glyph();
        push_char(text, c);
        assert(glyphs_of(ps@).take(i + 1) =~= glyphs_of(ps@).take(i as int).push(c));
        assert(text@ =~= old(text)@ + glyphs_of(ps@).take(i + 1));
        i += 1;
    }
    assert(glyphs_of(ps@).take(i as int) =~= glyphs_of(ps@));
}

impl Icon {
    /// Appends what the key shows to `text`.
    pub fn show_into(&self, text: &mut String)
        ensures
            final(text)@ == old(text)@ + self@.label(),
    {
        match self {
            Icon::Single(p) => {
                let c = p.glyph();
                push_char(text, c);
                assert(text@ =~= old(text)@ + seq![c]);
            },
            Icon::Idiom(ps) => {
                push_glyphs(text, ps);
            },
            Icon::Exper(pair) => {
                text.append(pair.0);
            },
        }
    }

    /// Types the key into `input`: appends to it, in one call, everything the
    /// key stands for.
    pub fn type_into(&self, input: &mut String)
        ensures
            final(input)@ == old(input)@ + self@.typed(),
    {
        match self {
            Icon::Exper(pair) => {
                if !same_text(pair.0, EXPERIMENTAL_ICON) {
                    input.append(pair.0);
                } else {
                    assert(input@ =~= old(input)@ + Seq::<char>::empty());
                }
            },
            _ => {
                self.show_into(input);
            },
        }
    }

    /// What the key shows.
    pub fn label(&self) -> (r: String)
        ensures
            r@ == self@.label(),
    {
        let mut r = String::new();
        self.show_into(&mut r);
        assert(r@ =~= self@.label());
        r
    }
}

/// An idiom types one glyph for each of its primitives, in their order.
pub proof fn lemma_idiom_types_each_glyph(ps: Seq<Prim>, i: int)
    requires
        0 <= i < ps.len(),
    ensures
        IconView::Idiom(ps).typed().len() == ps.len(),
        IconView::Idiom(ps).typed()[i] == glyph_of(ps[i]),
{
}

/// A literal types exactly its own text, except for the literal that marks
/// the key reserved for a later feature, which types nothing.
pub proof fn lemma_literal_types_itself(text: Seq<char>, class: Seq<char>)
    ensures
        text != EXPERIMENTAL_ICON@ ==> IconView::Exper(text, class).typed() == text,
        text == EXPERIMENTAL_ICON@ ==> IconView::Exper(text, class).typed().len() == 0,
{
}

} // verus!
