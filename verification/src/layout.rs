//! What the radial menu shows, worked out from the gesture.
//!
//! This is a projection: it reads the gesture and never changes it. The menu
//! is visible while the gesture is armed, and then holds one slot for each
//! alternate of the cell, spread evenly around the ring from the first
//! alternate on.

use crate::highlighting::{css_class_of, css_of_prim, declared_args, declared_modifier_args};
use crate::icon::{glyph_of, Icon, IconView};
use crate::prim::Prim;
use crate::radial::{Gesture, RadialInfo};
use crate::style::RadialStyle;
use crate::text::push_char;
use vstd::prelude::*;
use vstd::string::StringExecFns;

verus! {

/// The font size of the alternate that the drag points at, in pixels.
pub const FONT_SELECTED_PX: u32 = 40;

/// The font size of the other alternates, in pixels.
pub const FONT_OTHER_PX: u32 = 20;

/// A piece of the face of a key: some text and the style class it is shown
/// in.
#[derive(Debug, Clone, PartialEq, Eq)]
pub struct Face {
    pub class: &'static str,
    pub text: String,
}

/// The mathematical value of a [`Face`].
pub struct FaceView {
    pub class: Seq<char>,
    pub text: Seq<char>,
}

impl View for Face {
    type V = FaceView;

    open spec fn view(&self) -> FaceView {
        FaceView { class: self.class@, text: self.text@ }
    }
}

impl DeepView for Face {
    type V = FaceView;

    open spec fn deep_view(&self) -> FaceView {
        self@
    }
}

/// The face of the primitive `p`: its glyph in the class of its arity.
pub open spec fn prim_face(p: Prim) -> FaceView {
    FaceView {
        class: css_class_of(
            p,
            declared_args(p.spec_info()),
            declared_modifier_args(p.spec_info()),
        ),
        text: seq![glyph_of(p)],
    }
}

impl IconView {
    /// The face of the key, piece by piece: a primitive shows its glyph in
    /// the class of its arity, an idiom shows each of its primitives so, and
    /// a literal shows its text in its own class.
    pub open spec fn faces(self) -> Seq<FaceView> {
        match self {
            IconView::Single(p) => seq![prim_face(p)],
            IconView::Idiom(ps) => Seq::new(ps.len(), |i: int| prim_face(ps[i])),
            IconView::Exper(text, class) => seq![FaceView { class, text }],
        }
    }
}

/// The face of the primitive `p`.
fn face_of_prim(p: &Prim) -> (r: Face)
    ensures
        r@ == prim_face(*p),
{
    let mut text = String::new();
    push_char(&mut text, p.glyph());
    assert(text@ =~= seq![glyph_of(*p)]);
    Face { class: css_of_prim(p), text }
}

/// The face of the key `icon`, piece by piece.
pub fn icon_faces(icon: &Icon) -> (r: Vec<Face>)
    ensures
        r.deep_view() == icon@.faces(),
{
    let mut r: Vec<Face> = Vec::new();
    match icon {
        Icon::Single(p) => {
            r.push(face_of_prim(p));
        },
        Icon::Idiom(ps) => {
            let mut i: usize = 0;
            while i < ps.len()
                invariant
                    i <= ps.len(),
                    r.len() == i,
                    forall|k: int| 0 <= k < i ==> r[k]@ == prim_face(ps@[k]),
                decreases ps.len() - i,
            {
                r.push(face_of_prim(&ps[i]));
                i += 1;
            }
        },
        Icon::Exper(pair) => {
            r.push(Face { class: pair.1, text: String::from_str(pair.0) });
        },
    }
    assert(r.deep_view() =~= icon@.faces());
    r
}

/// One alternate on the ring.
#[derive(Debug, PartialEq)]
pub struct RadialSlot {
    pub icon: Icon,
    /// The slot sits `step` / `steps` of a full turn from the first one.
    pub step: usize,
    pub steps: usize,
    /// The drag points at this alternate.
    pub highlighted: bool,
    pub font_px: u32,
}

/// The mathematical value of a [`RadialSlot`].
pub struct SlotView {
    pub icon: IconView,
    pub step: usize,
    pub steps: usize,
    pub highlighted: bool,
    pub font_px: u32,
}

impl View for RadialSlot {
    type V = SlotView;

    open spec fn view(&self) -> SlotView {
        SlotView {
            icon: self.icon@,
            step: self.step,
            steps: self.steps,
            highlighted: self.highlighted,
            font_px: self.font_px,
        }
    }
}

impl DeepView for RadialSlot {
    type V = SlotView;

    open spec fn deep_view(&self) -> SlotView {
        self@
    }
}

/// The radial menu as it is to be drawn.
#[derive(Debug, PartialEq)]
pub struct RadialMenu {
    pub visible: bool,
    pub style: RadialStyle,
    pub slots: Vec<RadialSlot>,
}

impl Gesture {
    /// The slot of alternate `i`.
    pub open spec fn slot(self, i: int) -> SlotView {
        SlotView {
            icon: self.glyphs[i + 1],
            step: i as usize,
            steps: self.alternates() as usize,
            highlighted: i == self.selection,
            font_px: if i == self.selection {
                FONT_SELECTED_PX
            } else {
                FONT_OTHER_PX
            },
        }
    }

    /// The slots of the menu: one for each alternate while the menu is open,
    /// none while it is closed.
    pub open spec fn slots(self) -> Seq<SlotView> {
        if self.active {
            Seq::new(self.alternates(), |i: int| self.slot(i))
        } else {
            Seq::empty()
        }
    }
}

/// The radial menu for the gesture `info`.
pub fn radial_menu(info: &RadialInfo) -> (menu: RadialMenu)
    ensures
        menu.visible == info@.active,
        menu.style == info@.style,
        menu.slots.deep_view() == info@.slots(),
{
    let mut slots: Vec<RadialSlot> = Vec::new();
    if info.active {
        let steps = info.alternates();
        let mut i: usize = 0;
        while i < steps
            invariant
                i <= steps,
                steps == info@.alternates(),
                info.active,
                slots.len() == i,
                forall|k: int| 0 <= k < i ==> slots[k]@ == info@.slot(k),
            decreases steps - i,
        {
            let highlighted = i == info.current_selection;
            let font_px = if highlighted {
                FONT_SELECTED_PX
            } else {
                FONT_OTHER_PX
            };
            let icon = info.glyphs[i + 1].clone();
            slots.push(RadialSlot { icon, step: i, steps, highlighted, font_px });
            i += 1;
        }
    }
    assert(slots.deep_view() =~= info@.slots());
    RadialMenu { visible: info.active, style: info.style, slots }
}

/// While the menu is open and the gesture is well formed, exactly one slot is
/// highlighted: that of the selected alternate. The slots keep the order of
/// the alternates in the cell.
pub proof fn lemma_one_slot_highlighted(g: Gesture, i: int)
    requires
        g.wf(),
        g.active,
        g.armable(),
        0 <= i < g.alternates(),
    ensures
        g.slots().len() == g.alternates(),
        g.slots()[i].icon == g.glyphs[i + 1],
        g.slots()[i].highlighted <==> i == g.selection,
        g.slots()[g.selection as int].highlighted,
        Some(g.slots()[g.selection as int].icon) == g.resolved(),
{
}

/// A closed menu shows no slots.
pub proof fn lemma_closed_menu_is_empty(g: Gesture)
    requires
        !g.active,
    ensures
        g.slots().len() == 0,
{
}

} // verus!
