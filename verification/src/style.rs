//! The highlight ring drawn behind the radial menu.
//!
//! The ring is cut at the midpoints between neighbouring alternates. These
//! cuts are numbered as edges: edge 0 is the start of the ring, edge `k` for
//! `1 <= k <= n` lies half a segment before alternate `k` (so at the fraction
//! `(2k - 1) / 2n` of the turn), and edge `n + 1` is the end of the ring.
//! Alternate `k >= 1` owns the arc from edge `k` to edge `k + 1`; alternate 0
//! straddles the seam and owns the arc from edge `n` to the end together with
//! the arc from the start to edge 1.

use vstd::prelude::*;

verus! {

/// One arc of the ring in a single shade, from one edge to another.
#[derive(Debug, Clone, Copy, PartialEq, Eq)]
pub struct Band {
    /// Whether this arc belongs to the selected alternate.
    pub lit: bool,
    pub from: usize,
    pub to: usize,
}

impl Band {
    /// Whether this band is lit and holds the piece of ring between edge `e`
    /// and edge `e + 1`.
    pub open spec fn holds_lit(self, e: int) -> bool {
        self.lit && self.from <= e < self.to
    }
}

/// How the ring is shaded: three consecutive bands (`head`, `body`, `tail`)
/// that cover it, or a plain background while `segments` is 0.
#[derive(Debug, Clone, Copy, PartialEq, Eq)]
pub struct RadialStyle {
    pub segments: usize,
    pub head: Band,
    pub body: Band,
    pub tail: Band,
}

/// The shading of a ring of `n` segments with alternate `selected` picked out.
pub open spec fn ring_style(n: usize, selected: usize) -> RadialStyle
    recommends
        0 <= selected < n < usize::MAX,
{
    if selected == 0 {
        RadialStyle {
            segments: n,
            head: Band { lit: true, from: 0, to: 1 },
            body: Band { lit: false, from: 1, to: n },
            tail: Band { lit: true, from: n, to: (n + 1) as usize },
        }
    } else {
        RadialStyle {
            segments: n,
            head: Band { lit: false, from: 0, to: selected },
            body: Band { lit: true, from: selected, to: (selected + 1) as usize },
            tail: Band { lit: false, from: (selected + 1) as usize, to: (n + 1) as usize },
        }
    }
}

/// Whether the piece of ring between edge `e` and edge `e + 1` belongs to
/// alternate `k` of `n`.
pub open spec fn piece_of(n: int, k: int, e: int) -> bool {
    if k == 0 {
        e == 0 || e == n
    } else {
        e == k
    }
}

impl RadialStyle {
    /// The background before any gesture has shaped the ring.
    pub open spec fn spec_plain() -> RadialStyle {
        RadialStyle {
            segments: 0,
            head: Band { lit: false, from: 0, to: 0 },
            body: Band { lit: false, from: 0, to: 0 },
            tail: Band { lit: false, from: 0, to: 0 },
        }
    }

    /// The background before any gesture has shaped the ring.
    pub fn plain() -> (r: RadialStyle)
        ensures
            r == RadialStyle::spec_plain(),
    {
        let none = Band { lit: false, from: 0, to: 0 };
        RadialStyle { segments: 0, head: none, body: none, tail: none }
    }

    /// The shading of a ring of `n` segments with alternate `selected` picked
    /// out.
    pub fn ring(n: usize, selected: usize) -> (r: RadialStyle)
        requires
            selected < n < usize::MAX,
        ensures
            r == ring_style(n, selected),
    {
        if selected == 0 {
            RadialStyle {
                segments: n,
                head: Band { lit: true, from: 0, to: 1 },
                body: Band { lit: false, from: 1, to: n },
                tail: Band { lit: true, from: n, to: n + 1 },
            }
        } else {
            RadialStyle {
                segments: n,
                head: Band { lit: false, from: 0, to: selected },
                body: Band { lit: true, from: selected, to: selected + 1 },
                tail: Band { lit: false, from: selected + 1, to: n + 1 },
            }
        }
    }

    /// Whether the piece of ring between edge `e` and edge `e + 1` is lit.
    pub open spec fn lit_at(self, e: int) -> bool {
        self.head.holds_lit(e) || self.body.holds_lit(e) || self.tail.holds_lit(e)
    }
}

/// The three bands follow one another from the start of the ring to its end.
pub proof fn lemma_ring_covers(n: usize, selected: usize)
    requires
        selected < n < usize::MAX,
    ensures
        ({
            let s = ring_style(n, selected);
            &&& s.head.from == 0
            &&& s.head.to == s.body.from
            &&& s.body.to == s.tail.from
            &&& s.tail.to == n + 1
            &&& s.head.from <= s.head.to
            &&& s.body.from <= s.body.to
            &&& s.tail.from <= s.tail.to
        }),
{
}

/// A piece of the ring is lit exactly when it belongs to the selected
/// alternate: the highlight marks that alternate's arc and nothing else.
pub proof fn lemma_ring_lights_selection(n: usize, selected: usize, e: int)
    requires
        selected < n < usize::MAX,
        0 <= e <= n,
    ensures
        ring_style(n, selected).lit_at(e) <==> piece_of(n as int, selected as int, e),
{
}

} // verus!
