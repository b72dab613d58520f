//! The keypad: a fixed table of cells, four rows of five.
//!
//! Each cell lists what it types: first the default, which a tap gives, then
//! the alternates of its radial menu. Every primitive sits in one cell only.

use crate::icon::{Icon, IconView, EXPERIMENTAL_ICON};
use crate::prim::Prim;
use crate::provider::{list_primitives, listed_primitive, Listing};
use crate::text::same_text;
use vstd::prelude::*;

verus! {

pub const KEYPAD_ROWS: usize = 4;

pub const KEYPAD_COLUMNS: usize = 5;

// Row one: arguments and modifiers.
pub const ARGUMENTS: [Prim; 7] = [
    Prim::Identity,
    Prim::Slf,
    Prim::Backward,
    Prim::Pop,
    Prim::Dup,
    Prim::Flip,
    Prim::Stack,
];

pub const PLANETS: [Prim; 10] = [
    Prim::Fork,
    Prim::Both,
    Prim::Bracket,
    Prim::Dip,
    Prim::Gap,
    Prim::On,
    Prim::By,
    Prim::Off,
    Prim::With,
    Prim::Below,
];

pub const INVERSES: [Prim; 5] = [Prim::Un, Prim::Anti, Prim::Under, Prim::Obverse, Prim::Fill];

pub const LOOPS: [Prim; 9] = [
    Prim::Reduce,
    Prim::Fold,
    Prim::Scan,
    Prim::Repeat,
    Prim::Switch,
    Prim::Do,
    Prim::Try,
    Prim::Case,
    Prim::Assert,
];

pub const MAPPINGS: [Prim; 6] = [
    Prim::Rows,
    Prim::Table,
    Prim::Stencil,
    Prim::Tuples,
    Prim::Partition,
    Prim::Group,
];

// Row two: functions of one array.
pub const MONADIC_ARITHMETIC: [Prim; 9] = [
    Prim::Neg,
    Prim::Sign,
    Prim::Not,
    Prim::Abs,
    Prim::Sqrt,
    Prim::Sin,
    Prim::Floor,
    Prim::Ceil,
    Prim::Round,
];

pub const MONADIC_STRUCTURE: [Prim; 8] = [
    Prim::Len,
    Prim::Shape,
    Prim::First,
    Prim::Last,
    Prim::Reverse,
    Prim::Deshape,
    Prim::Fix,
    Prim::Transpose,
];

pub const MONADIC_VALUES: [Prim; 4] = [Prim::Range, Prim::Bits, Prim::Where, Prim::Parse];

pub const MONADIC_COMPARISON: [Prim; 6] = [
    Prim::Sort,
    Prim::Rise,
    Prim::Fall,
    Prim::Classify,
    Prim::Deduplicate,
    Prim::Unique,
];

pub const BOXES: [Prim; 3] = [Prim::Box, Prim::Content, Prim::Inventory];

// Row three: functions of two arrays, and constants.
pub const DYADIC_ARITHMETIC: [Prim; 10] = [
    Prim::Add,
    Prim::Sub,
    Prim::Mul,
    Prim::Div,
    Prim::Modulus,
    Prim::Pow,
    Prim::Log,
    Prim::Atan,
    Prim::Complex,
    Prim::Base,
];

pub const DYADIC_STRUCTURE: [Prim; 10] = [
    Prim::Couple,
    Prim::Join,
    Prim::Select,
    Prim::Pick,
    Prim::Reshape,
    Prim::Drop,
    Prim::Take,
    Prim::Rotate,
    Prim::Keep,
    Prim::Orient,
];

pub const COMPARISONS: [Prim; 8] = [
    Prim::Eq,
    Prim::Ne,
    Prim::Le,
    Prim::Lt,
    Prim::Gt,
    Prim::Ge,
    Prim::Min,
    Prim::Max,
];

pub const DYADIC_SEARCH: [Prim; 5] = [
    Prim::Match,
    Prim::Find,
    Prim::Mask,
    Prim::MemberOf,
    Prim::IndexOf,
];

pub const CONSTANTS: [Prim; 5] = [Prim::Rand, Prim::Eta, Prim::Pi, Prim::Tau, Prim::Infinity];

// Row four: literals and idioms.
pub const DIGITS: [&'static str; 10] = ["0", "1", "2", "3", "4", "5", "6", "7", "8", "9"];

pub const SUBSCRIPT_DIGITS: [&'static str; 10] = [
    "₀",
    "₁",
    "₂",
    "₃",
    "₄",
    "₅",
    "₆",
    "₇",
    "₈",
    "₉",
];

/// Subtract from one: the complement of a mask.
pub const COMPLEMENT: [Prim; 3] = [Prim::Sub, Prim::By, Prim::Not];

/// A cell of single primitives.
pub open spec fn singles_of(prims: Seq<Prim>) -> Seq<IconView> {
    Seq::new(prims.len(), |i: int| IconView::Single(prims[i]))
}

/// A cell of literals that share the style class `class`.
pub open spec fn literals_of(texts: Seq<&'static str>, class: Seq<char>) -> Seq<IconView> {
    Seq::new(texts.len(), |i: int| IconView::Exper(texts[i]@, class))
}

/// The keypad, cell by cell and row by row.
pub open spec fn keypad() -> Seq<Seq<IconView>> {
    seq![
        singles_of(ARGUMENTS@),
        singles_of(PLANETS@),
        singles_of(INVERSES@),
        singles_of(LOOPS@),
        singles_of(MAPPINGS@),
        singles_of(MONADIC_ARITHMETIC@),
        singles_of(MONADIC_STRUCTURE@),
        singles_of(MONADIC_VALUES@),
        singles_of(MONADIC_COMPARISON@),
        singles_of(BOXES@),
        singles_of(DYADIC_ARITHMETIC@),
        singles_of(DYADIC_STRUCTURE@),
        singles_of(COMPARISONS@),
        singles_of(DYADIC_SEARCH@),
        singles_of(CONSTANTS@),
        seq![IconView::Exper("Empty"@, ""@)],
        literals_of(DIGITS@, "constant-value"@),
        literals_of(SUBSCRIPT_DIGITS@, "constant-value"@),
        seq![IconView::Exper(EXPERIMENTAL_ICON@, ""@)],
        seq![IconView::Idiom(COMPLEMENT@)],
    ]
}

/// The icon for a single primitive.
pub fn s(p: Prim) -> (r: Icon)
    ensures
        r@ == IconView::Single(p),
{
    Icon::Single(p)
}

/// A cell of single primitives.
pub fn singles<const N: usize>(prims: &[Prim; N]) -> (r: Vec<Icon>)
    ensures
        r.deep_view() == singles_of(prims@),
{
    let mut r: Vec<Icon> = Vec::new();
    let mut i: usize = 0;
    while i < N
        invariant
            i <= N,
            prims@.len() == N,
            r.len() == i,
            forall|k: int| 0 <= k < i ==> r[k]@ == IconView::Single(prims@[k]),
        decreases N - i,
    {
        r.push(s(prims[i]));
        i += 1;
    }
    assert(r.deep_view() =~= singles_of(prims@));
    r
}

/// A cell of literals that share the style class `class`.
pub fn literals<const N: usize>(texts: &[&'static str; N], class: &'static str) -> (r: Vec<Icon>)
    ensures
        r.deep_view() == literals_of(texts@, class@),
{
    let mut r: Vec<Icon> = Vec::new();
    let mut i: usize = 0;
    while i < N
        invariant
            i <= N,
            texts@.len() == N,
            r.len() == i,
            forall|k: int| 0 <= k < i ==> r[k]@ == IconView::Exper(texts@[k]@, class@),
        decreases N - i,
    {
        r.push(Icon::Exper((texts[i], class)));
        i += 1;
    }
    assert(r.deep_view() =~= literals_of(texts@, class@));
    r
}

/// A cell that holds one icon and so has no radial menu.
fn lone(icon: Icon) -> (r: Vec<Icon>)
    ensures
        r.deep_view() == seq![icon@],
{
    let mut r: Vec<Icon> = Vec::new();
    r.push(icon);
    assert(r.deep_view() =~= seq![icon@]);
    r
}

/// One idiom made of `prims`.
fn idiom<const N: usize>(prims: &[Prim; N]) -> (r: Icon)
    ensures
        r@ == IconView::Idiom(prims@),
{
    let mut ps: Vec<Prim> = Vec::new();
    let mut i: usize = 0;
    while i < N
        invariant
            i <= N,
            prims@.len() == N,
            ps@ == prims@.take(i as int),
        decreases N - i,
    {
        ps.push(prims[i]);
        assert(ps@ =~= prims@.take(i + 1));
        i += 1;
    }
    assert(ps@ =~= prims@);
    Icon::Idiom(ps)
}

/// Builds the keypad.
pub fn button_icons() -> (cells: Vec<Vec<Icon>>)
    ensures
        cells.deep_view() == keypad(),
        cells.len() == KEYPAD_ROWS * KEYPAD_COLUMNS,
{
    let mut cells: Vec<Vec<Icon>> = Vec::new();
    cells.push(singles(&ARGUMENTS));
    cells.push(singles(&PLANETS));
    cells.push(singles(&INVERSES));
    cells.push(singles(&LOOPS));
    cells.push(singles(&MAPPINGS));
    cells.push(singles(&MONADIC_ARITHMETIC));
    cells.push(singles(&MONADIC_STRUCTURE));
    cells.push(singles(&MONADIC_VALUES));
    cells.push(singles(&MONADIC_COMPARISON));
    cells.push(singles(&BOXES));
    cells.push(singles(&DYADIC_ARITHMETIC));
    cells.push(singles(&DYADIC_STRUCTURE));
    cells.push(singles(&COMPARISONS));
    cells.push(singles(&DYADIC_SEARCH));
    cells.push(singles(&CONSTANTS));
    cells.push(lone(Icon::Exper(("Empty", ""))));
    cells.push(literals(&DIGITS, "constant-value"));
    cells.push(literals(&SUBSCRIPT_DIGITS, "constant-value"));
    cells.push(lone(Icon::Exper((EXPERIMENTAL_ICON, ""))));
    cells.push(lone(idiom(&COMPLEMENT)));
    assert(cells.deep_view() =~= keypad());
    cells
}

/// Whether the entry at `(cell, slot)` of `cells` is the primitive `p`.
pub open spec fn is_prim_at(cells: Seq<Seq<IconView>>, cell: int, slot: int, p: Prim) -> bool {
    &&& 0 <= cell < cells.len()
    &&& 0 <= slot < cells[cell].len()
    &&& cells[cell][slot] == IconView::Single(p)
}

/// Whether `(cell, slot)` comes before `(other_cell, other_slot)` in reading
/// order.
pub open spec fn reads_before(cell: int, slot: int, other_cell: int, other_slot: int) -> bool {
    cell < other_cell || (cell == other_cell && slot < other_slot)
}

/// Whether some cell of `cells` holds the primitive `p`, as its default or as
/// an alternate.
pub open spec fn holds_prim(cells: Seq<Seq<IconView>>, p: Prim) -> bool {
    exists|cell: int, slot: int| is_prim_at(cells, cell, slot, p)
}

/// The slot of `p` in `cell`, if the cell holds it.
fn find_in_cell(cell: &Vec<Icon>, p: Prim) -> (r: Option<usize>)
    ensures
        match r {
            Some(slot) => {
                &&& slot < cell.len()
                &&& cell[slot as int]@ == IconView::Single(p)
                &&& forall|k: int| 0 <= k < slot ==> cell[k]@ != IconView::Single(p)
            },
            None => forall|k: int| 0 <= k < cell.len() ==> cell[k]@ != IconView::Single(p),
        },
{
    let mut i: usize = 0;
    while i < cell.len()
        invariant
            i <= cell.len(),
            forall|k: int| 0 <= k < i ==> cell[k]@ != IconView::Single(p),
        decreases cell.len() - i,
    {
        let found = match &cell[i] {
            Icon::Single(q) => *q == p,
            _ => false,
        };
        if found {
            return Some(i);
        }
        i += 1;
    }
    None
}

/// Finds the primitive `p` on the keypad `cells`: the first cell that holds
/// it and its slot there, or `None` where no cell holds it.
pub fn find_prim(cells: &Vec<Vec<Icon>>, p: Prim) -> (r: Option<(usize, usize)>)
    ensures
        r.is_some() == holds_prim(cells.deep_view(), p),
        r matches Some((cell, slot)) ==> {
            &&& is_prim_at(cells.deep_view(), cell as int, slot as int, p)
            &&& forall|c: int, i: int|
                reads_before(c, i, cell as int, slot as int) ==> !is_prim_at(
                    cells.deep_view(),
                    c,
                    i,
                    p,
                )
        },
{
    let mut c: usize = 0;
    while c < cells.len()
        invariant
            c <= cells.len(),
            forall|c0: int, i0: int| 0 <= c0 < c ==> !is_prim_at(cells.deep_view(), c0, i0, p),
        decreases cells.len() - c,
    {
        match find_in_cell(&cells[c], p) {
            Some(slot) => {
                assert(is_prim_at(cells.deep_view(), c as int, slot as int, p));
                return Some((c, slot));
            },
            None => {},
        }
        c += 1;
    }
    None
}

/// Whether the entry at `(cell, slot)` of `cells` is a primitive that the
/// language calls `name`.
pub open spec fn is_name_at(
    cells: Seq<Seq<IconView>>,
    cell: int,
    slot: int,
    name: Seq<char>,
) -> bool {
    &&& 0 <= cell < cells.len()
    &&& 0 <= slot < cells[cell].len()
    &&& cells[cell][slot] matches IconView::Single(p)
    &&& p.spec_name() == name
}

/// Whether some cell of `cells` types the primitive that the language calls
/// `name`, as its default or as an alternate.
pub open spec fn types_name(cells: Seq<Seq<IconView>>, name: Seq<char>) -> bool {
    exists|cell: int, slot: int| is_name_at(cells, cell, slot, name)
}

/// Whether some cell of `cells` types the primitive that the language calls
/// `name`.
pub fn can_type(cells: &Vec<Vec<Icon>>, name: &str) -> (r: bool)
    ensures
        r == types_name(cells.deep_view(), name@),
{
    let mut c: usize = 0;
    while c < cells.len()
        invariant
            c <= cells.len(),
            forall|c0: int, i0: int| 0 <= c0 < c ==> !is_name_at(cells.deep_view(), c0, i0, name@),
        decreases cells.len() - c,
    {
        let cell = &cells[c];
        let mut i: usize = 0;
        while i < cell.len()
            invariant
                i <= cell.len(),
                c < cells.len(),
                *cell == cells[c as int],
                forall|c0: int, i0: int|
                    0 <= c0 < c ==> !is_name_at(cells.deep_view(), c0, i0, name@),
                forall|i0: int| 0 <= i0 < i ==> !is_name_at(cells.deep_view(), c as int, i0, name@),
            decreases cell.len() - i,
        {
            let found = match &cell[i] {
                Icon::Single(p) => same_text(p.name(), name),
                _ => false,
            };
            if found {
                assert(is_name_at(cells.deep_view(), c as int, i as int, name@));
                return true;
            }
            i += 1;
        }
        c += 1;
    }
    false
}

/// Whether a primitive is one that a user must be able to enter: it has a
/// glyph and is neither deprecated nor experimental.
pub open spec fn user_facing(listing: Listing) -> bool {
    listing.glyph.is_some() && !listing.deprecated && !listing.experimental
}

/// Whether the keypad `cells` lacks the primitive listed as `listing`, which
/// a user must be able to enter.
pub open spec fn is_gap(cells: Seq<Seq<IconView>>, listing: Listing) -> bool {
    user_facing(listing) && !types_name(cells, listing.name@)
}

/// Looks through the list `all` of primitives for one that a user must be
/// able to enter and that the keypad `cells` cannot type. Returns the place
/// in `all` of the first such primitive, or `None` where there is none.
pub fn first_gap(cells: &Vec<Vec<Icon>>, all: &Vec<Listing>) -> (r: Option<usize>)
    ensures
        match r {
            Some(k) => {
                &&& k < all.len()
                &&& is_gap(cells.deep_view(), all[k as int])
                &&& forall|j: int| 0 <= j < k ==> !is_gap(cells.deep_view(), all[j])
            },
            None => forall|j: int| 0 <= j < all.len() ==> !is_gap(cells.deep_view(), all[j]),
        },
{
    let mut k: usize = 0;
    while k < all.len()
        invariant
            k <= all.len(),
            forall|j: int| 0 <= j < k ==> !is_gap(cells.deep_view(), all[j]),
        decreases all.len() - k,
    {
        let listing = all[k];
        if listing.glyph.is_some() && !listing.deprecated && !listing.experimental {
            if !can_type(cells, listing.name) {
                return Some(k);
            }
        }
        k += 1;
    }
    None
}

/// Whether the keypad `cells` lacks the primitive at place `index` of the
/// language's list, which a user must be able to enter.
pub open spec fn is_language_gap(cells: Seq<Seq<IconView>>, index: int) -> bool {
    listed_primitive(index) matches Some(listing) && is_gap(cells, listing)
}

/// Whether the keypad `cells` types every primitive of the language that a
/// user must be able to enter.
pub open spec fn complete_for_language(cells: Seq<Seq<IconView>>) -> bool {
    forall|index: int| 0 <= index ==> !is_language_gap(cells, index)
}

/// Whether `name` is the name of the first primitive in the language's list
/// that a user must be able to enter and that the keypad `cells` cannot
/// type.
pub open spec fn first_missing(cells: Seq<Seq<IconView>>, name: &'static str) -> bool {
    exists|index: int|
        {
            &&& 0 <= index
            &&& #[trigger] is_language_gap(cells, index)
            &&& listed_primitive(index) matches Some(listing) && listing.name == name
            &&& forall|before: int| 0 <= before < index ==> !is_language_gap(cells, before)
        }
}

/// Checks the keypad `cells` against the language: every primitive that a
/// user must be able to enter has to be on it. Succeeds exactly where the
/// keypad is complete; else gives the name of the first primitive in the
/// language's list that is missing.
pub fn keypad_has_all_prims(cells: &Vec<Vec<Icon>>) -> (r: Result<(), &'static str>)
    ensures
        r.is_ok() == complete_for_language(cells.deep_view()),
        r matches Err(name) ==> first_missing(cells.deep_view(), name),
        r matches Err(name) ==> !types_name(cells.deep_view(), name@),
{
    let all = list_primitives();
    match first_gap(cells, &all) {
        Some(k) => {
            assert(listed_primitive(k as int) == Some(all[k as int]));
            assert(is_language_gap(cells.deep_view(), k as int));
            assert forall|before: int| 0 <= before < k implies !is_language_gap(
                cells.deep_view(),
                before,
            ) by {
                assert(listed_primitive(before) == Some(all[before]));
            }
            Err(all[k].name)
        },
        None => {
            assert forall|index: int| 0 <= index implies !is_language_gap(
                cells.deep_view(),
                index,
            ) by {
                if index < all.len() {
                    assert(listed_primitive(index) == Some(all[index]));
                }
            }
            Ok(())
        },
    }
}

/// The cell in row `row` and column `column` of the keypad `cells`, read row
/// by row; `None` outside the keypad.
pub fn cell_at(cells: &Vec<Vec<Icon>>, row: usize, column: usize) -> (r: Option<&Vec<Icon>>)
    ensures
        r.is_some() == (column < KEYPAD_COLUMNS && row * KEYPAD_COLUMNS + column < cells.len()),
        r matches Some(cell) ==> *cell == cells[row * KEYPAD_COLUMNS + column],
{
    if column >= KEYPAD_COLUMNS {
        return None;
    }
    // A row past the last cell, or so far down that its cells cannot be
    // numbered, lies outside the keypad.
    if row >= cells.len() || row > (usize::MAX - KEYPAD_COLUMNS) / KEYPAD_COLUMNS {
        assert(row * KEYPAD_COLUMNS + column >= cells.len()) by (nonlinear_arith)
            requires
                row >= cells.len() || row > (usize::MAX - 5) / 5,
                cells.len() <= usize::MAX,
                KEYPAD_COLUMNS == 5,
                column >= 0,
        ;
        return None;
    }
    let flat = row * KEYPAD_COLUMNS + column;
    if flat < cells.len() {
        Some(&cells[flat])
    } else {
        None
    }
}

/// The place of a primitive on the keypad: the number of its cell and its
/// position in the cell.
pub open spec fn home(p: Prim) -> (int, int) {
    match p {
        Prim::Identity => (0, 0),
        Prim::Slf => (0, 1),
        Prim::Backward => (0, 2),
        Prim::Pop => (0, 3),
        Prim::Dup => (0, 4),
        Prim::Flip => (0, 5),
        Prim::Stack => (0, 6),
        Prim::Fork => (1, 0),
        Prim::Both => (1, 1),
        Prim::Bracket => (1, 2),
        Prim::Dip => (1, 3),
        Prim::Gap => (1, 4),
        Prim::On => (1, 5),
        Prim::By => (1, 6),
        Prim::Off => (1, 7),
        Prim::With => (1, 8),
        Prim::Below => (1, 9),
        Prim::Un => (2, 0),
        Prim::Anti => (2, 1),
        Prim::Under => (2, 2),
        Prim::Obverse => (2, 3),
        Prim::Fill => (2, 4),
        Prim::Reduce => (3, 0),
        Prim::Fold => (3, 1),
        Prim::Scan => (3, 2),
        Prim::Repeat => (3, 3),
        Prim::Switch => (3, 4),
        Prim::Do => (3, 5),
        Prim::Try => (3, 6),
        Prim::Case => (3, 7),
        Prim::Assert => (3, 8),
        Prim::Rows => (4, 0),
        Prim::Table => (4, 1),
        Prim::Stencil => (4, 2),
        Prim::Tuples => (4, 3),
        Prim::Partition => (4, 4),
        Prim::Group => (4, 5),
        Prim::Neg => (5, 0),
        Prim::Sign => (5, 1),
        Prim::Not => (5, 2),
        Prim::Abs => (5, 3),
        Prim::Sqrt => (5, 4),
        Prim::Sin => (5, 5),
        Prim::Floor => (5, 6),
        Prim::Ceil => (5, 7),
        Prim::Round => (5, 8),
        Prim::Len => (6, 0),
        Prim::Shape => (6, 1),
        Prim::First => (6, 2),
        Prim::Last => (6, 3),
        Prim::Reverse => (6, 4),
        Prim::Deshape => (6, 5),
        Prim::Fix => (6, 6),
        Prim::Transpose => (6, 7),
        Prim::Range => (7, 0),
        Prim::Bits => (7, 1),
        Prim::Where => (7, 2),
        Prim::Parse => (7, 3),
        Prim::Sort => (8, 0),
        Prim::Rise => (8, 1),
        Prim::Fall => (8, 2),
        Prim::Classify => (8, 3),
        Prim::Deduplicate => (8, 4),
        Prim::Unique => (8, 5),
        Prim::Box => (9, 0),
        Prim::Content => (9, 1),
        Prim::Inventory => (9, 2),
        Prim::Add => (10, 0),
        Prim::Sub => (10, 1),
        Prim::Mul => (10, 2),
        Prim::Div => (10, 3),
        Prim::Modulus => (10, 4),
        Prim::Pow => (10, 5),
        Prim::Log => (10, 6),
        Prim::Atan => (10, 7),
        Prim::Complex => (10, 8),
        Prim::Base => (10, 9),
        Prim::Couple => (11, 0),
        Prim::Join => (11, 1),
        Prim::Select => (11, 2),
        Prim::Pick => (11, 3),
        Prim::Reshape => (11, 4),
        Prim::Drop => (11, 5),
        Prim::Take => (11, 6),
        Prim::Rotate => (11, 7),
        Prim::Keep => (11, 8),
        Prim::Orient => (11, 9),
        Prim::Eq => (12, 0),
        Prim::Ne => (12, 1),
        Prim::Le => (12, 2),
        Prim::Lt => (12, 3),
        Prim::Gt => (12, 4),
        Prim::Ge => (12, 5),
        Prim::Min => (12, 6),
        Prim::Max => (12, 7),
        Prim::Match => (13, 0),
        Prim::Find => (13, 1),
        Prim::Mask => (13, 2),
        Prim::MemberOf => (13, 3),
        Prim::IndexOf => (13, 4),
        Prim::Rand => (14, 0),
        Prim::Eta => (14, 1),
        Prim::Pi => (14, 2),
        Prim::Tau => (14, 3),
        Prim::Infinity => (14, 4),
    }
}

/// Whether `(cell, slot)` names an entry of the keypad.
pub open spec fn on_keypad(cell: int, slot: int) -> bool {
    0 <= cell < keypad().len() && 0 <= slot < keypad()[cell].len()
}

/// The keypad has four rows of five cells, and no cell is empty: each has a
/// default to type on a tap.
pub proof fn lemma_keypad_shape(cell: int)
    requires
        0 <= cell < KEYPAD_ROWS * KEYPAD_COLUMNS,
    ensures
        keypad().len() == KEYPAD_ROWS * KEYPAD_COLUMNS,
        keypad()[cell].len() > 0,
{
}

/// Every primitive is on the keypad, at its home.
pub proof fn lemma_prim_at_home(p: Prim)
    ensures
        on_keypad(home(p).0, home(p).1),
        keypad()[home(p).0][home(p).1] == IconView::Single(p),
{
}

/// The keypad types every primitive by the name the language gives it.
pub proof fn lemma_keypad_types_every_prim(p: Prim)
    ensures
        holds_prim(keypad(), p),
        types_name(keypad(), p.spec_name()),
{
    lemma_prim_at_home(p);
    assert(is_prim_at(keypad(), home(p).0, home(p).1, p));
    assert(is_name_at(keypad(), home(p).0, home(p).1, p.spec_name()));
}

/// A primitive is nowhere on the keypad but at its home. With
/// [`lemma_prim_at_home`]: every primitive has exactly one cell that holds
/// it, as the default or as an alternate.
pub proof fn lemma_prim_only_at_home(cell: int, slot: int, p: Prim)
    requires
        on_keypad(cell, slot),
        keypad()[cell][slot] == IconView::Single(p),
    ensures
        (cell, slot) == home(p),
{
}

} // verus!
