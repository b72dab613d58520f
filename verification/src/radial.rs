//! The state of one press-and-drag gesture over a keypad cell.
//!
//! A gesture starts when a cell is pressed, follows the pointer while it is
//! down, may be armed once the press has lasted long enough, and ends when
//! the pointer is released. Released unarmed it resolves to the default of
//! the cell; released armed it resolves to the alternate the drag points at.

use crate::icon::{Icon, IconView};
use crate::sector::{lemma_sector_in_range, lemma_sector_of_rest, sector_index, sector_of};
use crate::style::{ring_style, RadialStyle};
use vstd::prelude::*;

verus! {

/// A position on the screen, in whole logical pixels.
#[derive(Debug, Clone, Copy, PartialEq, Eq, Structural)]
pub struct Point {
    pub x: i32,
    pub y: i32,
}

impl Point {
    pub open spec fn spec_origin() -> Point {
        Point { x: 0, y: 0 }
    }

    /// The corner of the screen, where an idle gesture rests.
    pub fn origin() -> (p: Point)
        ensures
            p == Point::spec_origin(),
    {
        Point { x: 0, y: 0 }
    }
}

/// The mathematical value of a [`RadialInfo`].
pub struct Gesture {
    pub active: bool,
    pub selection: usize,
    pub start: Point,
    pub current: Point,
    pub glyphs: Seq<IconView>,
    pub style: RadialStyle,
}

impl Gesture {
    /// A cell is being gestured over.
    pub open spec fn tracking(self) -> bool {
        self.glyphs.len() > 0
    }

    /// How many alternates the cell under the gesture offers.
    pub open spec fn alternates(self) -> nat {
        if self.glyphs.len() == 0 {
            0
        } else {
            (self.glyphs.len() - 1) as nat
        }
    }

    /// Where the cell has alternates, the selection names one of them and the
    /// highlight marks it.
    pub open spec fn wf(self) -> bool {
        self.alternates() > 0 ==> {
            &&& self.selection < self.alternates()
            &&& self.style == ring_style(self.alternates() as usize, self.selection)
        }
    }

    /// The resting state between gestures.
    pub open spec fn idle(self) -> bool {
        &&& !self.active
        &&& self.glyphs.len() == 0
        &&& self.start == Point::spec_origin()
        &&& self.current == Point::spec_origin()
    }

    /// The state that nothing has touched yet.
    pub open spec fn fresh() -> Gesture {
        Gesture {
            active: false,
            selection: 0,
            start: Point::spec_origin(),
            current: Point::spec_origin(),
            glyphs: Seq::empty(),
            style: RadialStyle::spec_plain(),
        }
    }

    /// A press at `coord` on a cell holding `glyphs`: an unarmed gesture that
    /// has not moved yet and points at the first alternate.
    pub open spec fn started(self, coord: Point, glyphs: Seq<IconView>) -> Gesture {
        Gesture {
            active: false,
            selection: 0,
            start: coord,
            current: coord,
            glyphs,
            style: if glyphs.len() > 1 {
                ring_style((glyphs.len() - 1) as usize, 0)
            } else {
                RadialStyle::spec_plain()
            },
        }
    }

    /// The pointer moved to `coord`, which lies at `angle` from the start.
    /// Without a gesture nothing changes; without alternates only the
    /// position is tracked.
    pub open spec fn moved(self, coord: Point, angle: int) -> Gesture {
        if !self.tracking() {
            self
        } else if self.alternates() == 0 {
            Gesture { current: coord, ..self }
        } else {
            let picked = sector_of(angle, self.alternates() as int) as usize;
            Gesture {
                current: coord,
                selection: picked,
                style: ring_style(self.alternates() as usize, picked),
                ..self
            }
        }
    }

    /// Whether holding the press can open the radial menu.
    pub open spec fn armable(self) -> bool {
        self.alternates() > 0
    }

    /// The press has lasted long enough: the radial menu opens, unless there
    /// is no gesture or the cell has no alternates to show.
    pub open spec fn armed(self) -> Gesture {
        if self.armable() {
            Gesture { active: true, ..self }
        } else {
            self
        }
    }

    /// The gesture is over or was called off.
    pub open spec fn cleared(self) -> Gesture {
        Gesture {
            active: false,
            glyphs: Seq::empty(),
            start: Point::spec_origin(),
            current: Point::spec_origin(),
            ..self
        }
    }

    /// Which entry of the cell a release now would pick: the selected
    /// alternate of an armed gesture, else the default. `None` without a
    /// gesture.
    pub open spec fn resolved_index(self) -> Option<int> {
        if !self.tracking() {
            None
        } else if self.active && self.selection < self.alternates() {
            Some(self.selection + 1)
        } else {
            Some(0)
        }
    }

    /// The entry of the cell that a release now would pick.
    pub open spec fn resolved(self) -> Option<IconView> {
        match self.resolved_index() {
            Some(i) => Some(self.glyphs[i]),
            None => None,
        }
    }
}

/// The state of the gesture in progress, one for the whole keypad.
#[derive(Debug)]
pub struct RadialInfo {
    /// The radial menu is open.
    pub active: bool,
    /// The alternate, counted from 0, that the drag points at.
    pub current_selection: usize,
    pub starting_position: Point,
    pub current_position: Point,
    /// The cell under the gesture: its default, then its alternates. Empty
    /// between gestures.
    pub glyphs: Vec<Icon>,
    pub style: RadialStyle,
}

impl View for RadialInfo {
    type V = Gesture;

    open spec fn view(&self) -> Gesture {
        Gesture {
            active: self.active,
            selection: self.current_selection,
            start: self.starting_position,
            current: self.current_position,
            glyphs: self.glyphs.deep_view(),
            style: self.style,
        }
    }
}

impl Default for RadialInfo {
    fn default() -> (r: Self)
        ensures
            r@ == Gesture::fresh(),
    {
        RadialInfo::new()
    }
}

impl RadialInfo {
    /// A gesture at rest.
    pub fn new() -> (r: Self)
        ensures
            r@ == Gesture::fresh(),
            r@.idle(),
            r@.wf(),
    {
        let r = RadialInfo {
            active: false,
            current_selection: 0,
            starting_position: Point::origin(),
            current_position: Point::origin(),
            glyphs: Vec::new(),
            style: RadialStyle::plain(),
        };
        assert(r.glyphs.deep_view() =~= Seq::<IconView>::empty());
        r
    }

    /// How many alternates the cell under the gesture offers.
    pub fn alternates(&self) -> (n: usize)
        ensures
            n == self@.alternates(),
            n < usize::MAX,
    {
        if self.glyphs.len() == 0 {
            0
        } else {
            self.glyphs.len() - 1
        }
    }

    /// Begins a gesture at `coord` over the cell `glyphs`, whatever went on
    /// before.
    pub fn start(&mut self, coord: Point, glyphs: Vec<Icon>)
        ensures
            final(self)@ == old(self)@.started(coord, glyphs.deep_view()),
            final(self)@.wf(),
            !final(self).active,
    {
        self.active = false;
        self.current_selection = 0;
        self.starting_position = coord;
        self.current_position = coord;
        self.glyphs = glyphs;
        self.style = RadialStyle::plain();
        self.compute_radial();
    }

    /// Follows the pointer to `coord`, which lies at `angle` whole degrees
    /// from the start of the gesture in the frame of the ring.
    pub fn update(&mut self, coord: Point, angle: i32)
        ensures
            final(self)@ == old(self)@.moved(coord, angle as int),
            old(self)@.wf() ==> final(self)@.wf(),
            old(self)@.tracking() ==> final(self)@.wf(),
            final(self).active == old(self).active,
    {
        if self.glyphs.len() == 0 {
            return ;
        }
        self.current_position = coord;
        self.set_selection(angle);
        self.compute_radial();
    }

    /// Opens the radial menu once the press has lasted long enough. Does
    /// nothing without a gesture or over a cell without alternates.
    pub fn arm(&mut self) -> (opened: bool)
        ensures
            final(self)@ == old(self)@.armed(),
            opened == old(self)@.armable(),
            old(self)@.wf() ==> final(self)@.wf(),
    {
        if self.alternates() > 0 {
            self.active = true;
            true
        } else {
            false
        }
    }

    /// Returns to rest.
    pub fn reset(&mut self)
        ensures
            final(self)@ == old(self)@.cleared(),
            final(self)@.idle(),
            final(self)@.wf(),
    {
        self.active = false;
        self.glyphs.clear();
        self.starting_position = Point::origin();
        self.current_position = Point::origin();
        assert(self.glyphs.deep_view() =~= Seq::<IconView>::empty());
    }

    /// The entry of the cell that a release now would pick.
    pub fn resolve(&self) -> (r: Option<Icon>)
        ensures
            r.is_some() == self@.tracking(),
            r.is_some() ==> Some(r.unwrap()@) == self@.resolved(),
    {
        if self.glyphs.len() == 0 {
            return None;
        }
        let i: usize = if self.active && self.current_selection < self.glyphs.len() - 1 {
            self.current_selection + 1
        } else {
            0
        };
        Some(self.glyphs[i].clone())
    }

    /// Shades the ring for the current selection. Leaves the style alone
    /// where the cell has no alternates or the selection names none of them.
    fn compute_radial(&mut self)
        ensures
            final(self).active == old(self).active,
            final(self).current_selection == old(self).current_selection,
            final(self).starting_position == old(self).starting_position,
            final(self).current_position == old(self).current_position,
            final(self).glyphs == old(self).glyphs,
            final(self).style == if old(self).current_selection < old(self)@.alternates() {
                ring_style(old(self)@.alternates() as usize, old(self).current_selection)
            } else {
                old(self).style
            },
    {
        let num_glyphs = self.alternates();
        if self.current_selection < num_glyphs {
            self.style = RadialStyle::ring(num_glyphs, self.current_selection);
        }
    }

    /// Points the selection at the alternate that lies at `angle`. Leaves it
    /// alone where the cell has no alternates.
    fn set_selection(&mut self, angle: i32)
        ensures
            final(self).active == old(self).active,
            final(self).style == old(self).style,
            final(self).starting_position == old(self).starting_position,
            final(self).current_position == old(self).current_position,
            final(self).glyphs == old(self).glyphs,
            final(self).current_selection == if old(self)@.alternates() > 0 {
                sector_of(angle as int, old(self)@.alternates() as int) as usize
            } else {
                old(self).current_selection
            },
            old(self)@.alternates() > 0 ==> final(self).current_selection < old(self)@.alternates(),
    {
        let num_glyphs = self.alternates();
        match sector_index(angle, num_glyphs) {
            Some(section) => {
                self.current_selection = section;
            },
            None => {},
        }
    }
}

/// After a reset the gesture is at rest: the menu is closed, no cell is held
/// and both positions are back at the origin.
pub proof fn lemma_reset_rests(g: Gesture)
    ensures
        g.cleared().idle(),
        !g.cleared().active,
        g.cleared().glyphs.len() == 0,
        g.cleared().start == Point::spec_origin(),
        g.cleared().current == Point::spec_origin(),
        g.cleared().wf(),
{
}

/// Every step of a gesture keeps it well formed; a press even makes it so.
pub proof fn lemma_steps_keep_wf(g: Gesture, coord: Point, glyphs: Seq<IconView>, angle: int)
    requires
        glyphs.len() <= usize::MAX,
        g.glyphs.len() <= usize::MAX,
    ensures
        g.started(coord, glyphs).wf(),
        g.wf() ==> g.moved(coord, angle).wf(),
        g.tracking() ==> g.moved(coord, angle).wf(),
        g.wf() ==> g.armed().wf(),
        g.cleared().wf(),
{
    if g.alternates() > 0 {
        lemma_sector_in_range(angle, g.alternates() as int);
    }
}

/// The menu opens by arming alone: a press closes it and a move leaves it as
/// it was.
pub proof fn lemma_only_arming_opens(g: Gesture, coord: Point, glyphs: Seq<IconView>, angle: int)
    ensures
        !g.started(coord, glyphs).active,
        g.moved(coord, angle).active == g.active,
        g.armed().active == (g.active || g.armable()),
{
}

/// A tap types the default: released before it was armed, a gesture resolves
/// to the first entry of its cell, wherever the pointer went in between.
pub proof fn lemma_tap_resolves_default(
    g: Gesture,
    coord: Point,
    glyphs: Seq<IconView>,
    to: Point,
    angle: int,
)
    requires
        glyphs.len() > 0,
    ensures
        g.started(coord, glyphs).resolved() == Some(glyphs[0]),
        g.started(coord, glyphs).moved(to, angle).resolved() == Some(glyphs[0]),
{
}

/// A gesture that is not armed resolves to the default of its cell.
pub proof fn lemma_unarmed_resolves_default(g: Gesture)
    requires
        g.tracking(),
        !g.active,
    ensures
        g.resolved() == Some(g.glyphs[0]),
{
}

/// An armed gesture resolves to the alternate that the drag points at, which
/// sits one place after it in the cell.
pub proof fn lemma_armed_resolves_selection(g: Gesture)
    requires
        g.wf(),
        g.active,
        g.armable(),
    ensures
        g.resolved() == Some(g.glyphs[g.selection + 1]),
        0 < g.selection + 1 < g.glyphs.len(),
{
}

/// Once armed, a move to `angle` makes the release pick the alternate on
/// whose arc `angle` lies.
pub proof fn lemma_armed_move_picks_sector(g: Gesture, to: Point, angle: int)
    requires
        g.active,
        g.armable(),
        g.glyphs.len() <= usize::MAX,
    ensures
        g.moved(to, angle).resolved() == Some(
            g.glyphs[sector_of(angle, g.alternates() as int) + 1],
        ),
{
    lemma_sector_in_range(angle, g.alternates() as int);
}

/// A cell without alternates cannot be armed: holding the press changes
/// nothing and the release types the default.
pub proof fn lemma_no_alternates_stay_tap(g: Gesture)
    requires
        g.glyphs.len() == 1,
        !g.active,
    ensures
        g.armed() == g,
        g.armed().resolved() == Some(g.glyphs[0]),
{
}

/// A press that is held without moving opens the menu on the first
/// alternate.
pub proof fn lemma_held_press_points_first(g: Gesture, coord: Point, glyphs: Seq<IconView>)
    requires
        1 < glyphs.len() <= usize::MAX,
    ensures
        g.started(coord, glyphs).moved(coord, 0) == g.started(coord, glyphs),
        g.started(coord, glyphs).armed().resolved() == Some(glyphs[1]),
{
    lemma_sector_of_rest(glyphs.len() - 1);
}

} // verus!
