//! What the language itself reports about its primitives.
//!
//! The keypad does not keep its own table of glyphs and arities. It asks the
//! language by the primitive's name, and everything proved about styling and
//! typing is stated over the answer.

use crate::prim::Prim;
use vstd::prelude::*;

verus! {

/// The classes of primitives that styling treats apart from the rest.
#[derive(Debug, Clone, Copy, PartialEq, Eq, Structural)]
pub enum PrimGroup {
    /// Works on the stack itself.
    Stack,
    /// Helps with debugging.
    Debug,
    /// Any other class.
    Other,
}

/// What the language reports about one primitive.
#[derive(Debug, Clone, Copy, PartialEq, Eq)]
pub struct PrimInfo {
    /// The character that stands for the primitive, if it has one.
    pub glyph: Option<char>,
    /// How many values it takes, if that is fixed.
    pub args: Option<usize>,
    /// How many functions it takes, if it is a modifier.
    pub modifier_args: Option<usize>,
    /// How many values its signature takes, if it has a fixed signature.
    pub sig_args: Option<usize>,
    pub class: PrimGroup,
}

/// One line of the language's list of primitives.
#[derive(Debug, Clone, Copy, PartialEq, Eq)]
pub struct Listing {
    pub name: &'static str,
    pub glyph: Option<char>,
    pub deprecated: bool,
    pub experimental: bool,
}

/// The number written below a primitive.
#[derive(Debug, Clone, Copy, PartialEq, Eq, Structural)]
pub enum NumericSubscript {
    /// A minus sign with no digits.
    NegOnly,
    /// More digits than fit.
    TooLarge,
    N(i32),
}

/// A subscript, as far as it bears on a primitive's signature.
#[derive(Debug, Clone, Copy, PartialEq, Eq, Structural)]
pub struct Subscript {
    pub num: Option<NumericSubscript>,
}

/// What the language reports about the primitive called `name`; `None` where
/// it knows no primitive of that name.
pub uninterp spec fn primitive_info(name: Seq<char>) -> Option<PrimInfo>;

/// How many values the primitive called `name` takes once `sub` is written
/// below it; `None` where the subscript does not settle that.
pub uninterp spec fn subscripted_args(name: Seq<char>, sub: Option<Subscript>) -> Option<usize>;

/// Asks the language about the primitive called `name`.
///
/// Trusted: `uiua::Primitive::from_name` finds the primitive, and its
/// `glyph`, `args`, `modifier_args`, `sig` and `class` fill the record. All
/// of these read fixed tables, so the same name always gives the same answer.
#[verifier::external_body]
pub(crate) fn describe(name: &str) -> (r: Option<PrimInfo>)
    ensures
        r == primitive_info(name@),
{
    let p = uiua::Primitive::from_name(name)?;
    Some(PrimInfo {
        glyph: p.glyph(),
        args: p.args(),
        modifier_args: p.modifier_args(),
        sig_args: p.sig().map(|s| s.args()),
        class: match p.class() {
            uiua::PrimClass::Stack => PrimGroup::Stack,
            uiua::PrimClass::Debug => PrimGroup::Debug,
            _ => PrimGroup::Other,
        },
    })
}

/// Asks the language how many values the primitive called `name` takes under
/// the subscript `sub`.
///
/// Trusted: `uiua::Primitive::subscript_sig`, called on the primitive that
/// `uiua::Primitive::from_name` finds, with the subscript rebuilt in the
/// language's own type. It depends on the primitive and the subscript alone.
#[verifier::external_body]
pub(crate) fn describe_subscripted(name: &str, sub: Option<Subscript>) -> (r: Option<usize>)
    ensures
        r == subscripted_args(name@, sub),
{
    let p = uiua::Primitive::from_name(name)?;
    let theirs = sub.map(|s| uiua::ast::Subscript {
        num: match s.num {
            Some(NumericSubscript::NegOnly) => Some(uiua::ast::NumericSubscript::NegOnly),
            Some(NumericSubscript::TooLarge) => Some(uiua::ast::NumericSubscript::TooLarge),
            Some(NumericSubscript::N(n)) => Some(uiua::ast::NumericSubscript::N(n)),
            None => None,
        },
        side: None,
    });
    p.subscript_sig(theirs).map(|s| s.args())
}

/// The entry at place `index` of the language's list of all its primitives,
/// counted from 0 in the order in which the language lists them; `None` past
/// the end of the list.
pub uninterp spec fn listed_primitive(index: int) -> Option<Listing>;

/// Asks the language for the list of all its primitives.
///
/// Trusted: `uiua::Primitive::all`, with the `name`, `glyph`, `is_deprecated`
/// and `is_experimental` of each primitive. The language lists its
/// primitives in a fixed order, so every call gives the same list: the result
/// holds the listed entries in their places, and the list ends where the
/// result does.
#[verifier::external_body]
pub(crate) fn list_primitives() -> (all: Vec<Listing>)
    ensures
        forall|i: int| 0 <= i < all.len() ==> listed_primitive(i) == Some(#[trigger] all[i]),
        forall|i: int| i >= all.len() ==> (#[trigger] listed_primitive(i)).is_none(),
{
    uiua::Primitive::all()
        .map(|p| Listing {
            name: p.name(),
            glyph: p.glyph(),
            deprecated: p.is_deprecated(),
            experimental: p.is_experimental(),
        })
        .collect()
}

impl Prim {
    /// What the language reports about this primitive.
    pub open spec fn spec_info(self) -> Option<PrimInfo> {
        primitive_info(self.spec_name())
    }

    /// What the language reports about this primitive.
    pub fn info(&self) -> (r: Option<PrimInfo>)
        ensures
            r == self.spec_info(),
    {
        describe(self.name())
    }
}

} // verus!
