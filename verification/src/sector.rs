//! Which alternate a drag points at.
//!
//! The alternates of a cell sit evenly around a ring. Angles are whole
//! degrees in the ring's own frame: 0 points at the first alternate and the
//! angle grows in the order of the alternates. Each alternate owns the arc
//! that is nearer to it than to its neighbours, so the arcs are bounded by
//! the midpoints between alternates.

use vstd::prelude::*;

verus! {

/// Degrees in a full turn.
pub const FULL_TURN: i32 = 360;

/// The alternate, counted from 0, whose arc holds `angle` when `n`
/// alternates share the ring.
///
/// Scaled by `n`, an arc is 360 units wide and the first one starts 180
/// units before angle 0, which keeps the arithmetic exact for every `n`.
pub open spec fn sector_of(angle: int, n: int) -> int
    recommends
        n > 0,
{
    ((angle * n + 180) % (360 * n)) / 360
}

/// Whether `angle` lies on the arc of alternate `k` among `n`: no more than
/// half a segment before its direction and less than half a segment past it.
pub open spec fn on_arc_of(angle: int, n: int, k: int) -> bool
    recommends
        n > 0,
{
    (angle * n - 360 * k + 180) % (360 * n) < 360
}

/// The alternate that a drag at `angle` selects among `alternates`, or `None`
/// where the cell has no alternates.
pub fn sector_index(angle: i32, alternates: usize) -> (r: Option<usize>)
    ensures
        alternates == 0 ==> r.is_none(),
        alternates > 0 ==> r == Some(sector_of(angle as int, alternates as int) as usize),
        alternates > 0 ==> 0 <= sector_of(angle as int, alternates as int) < alternates,
{
    if alternates == 0 {
        return None;
    }
    let m: i32 = angle % FULL_TURN;
    let turned: i32 = if m < 0 { m + FULL_TURN } else { m };
    let a: u128 = turned as u128;
    let n: u128 = alternates as u128;
    proof {
        lemma_sector_reduce(angle as int, n as int);
        lemma_sector_in_range(a as int, n as int);
        assert(a * n <= 359 * n) by (nonlinear_arith)
            requires
                a <= 359,
                n >= 0,
        ;
        assert(360 * n <= 360 * 0x1_0000_0000_0000_0000) by (nonlinear_arith)
            requires
                n <= 0x1_0000_0000_0000_0000,
        ;
    }
    let scaled: u128 = a * n + 180;
    let turn: u128 = 360 * n;
    let k: u128 = (scaled % turn) / 360;
    Some(k as usize)
}

/// Turning the angle into `[0, 360)` first does not change the sector.
pub proof fn lemma_sector_reduce(angle: int, n: int)
    requires
        n > 0,
    ensures
        sector_of(angle, n) == sector_of(angle % 360, n),
{
    let q = angle / 360;
    let a = angle % 360;
    assert(angle == 360 * q + a) by {
        vstd::arithmetic::div_mod::lemma_fundamental_div_mod(angle, 360);
    }
    assert(angle * n + 180 == (360 * n) * q + (a * n + 180)) by (nonlinear_arith)
        requires
            angle == 360 * q + a,
    ;
    assert(360 * n > 0) by (nonlinear_arith)
        requires
            n > 0,
    ;
    vstd::arithmetic::div_mod::lemma_mod_multiples_vanish(q, a * n + 180, 360 * n);
}

/// Every angle falls into one of the `n` arcs.
pub proof fn lemma_sector_in_range(angle: int, n: int)
    requires
        n > 0,
    ensures
        0 <= sector_of(angle, n) < n,
{
    let turn = 360 * n;
    assert(turn > 0) by (nonlinear_arith)
        requires
            n > 0,
            turn == 360 * n,
    ;
    let r = (angle * n + 180) % turn;
    vstd::arithmetic::div_mod::lemma_mod_bound(angle * n + 180, turn);
    assert(0 <= r < 360 * n);
    assert(0 <= r / 360 < n) by (nonlinear_arith)
        requires
            0 <= r < 360 * n,
    ;
}

/// A full turn more or less selects the same alternate.
pub proof fn lemma_sector_wraps(angle: int, n: int)
    requires
        n > 0,
    ensures
        sector_of(angle + 360, n) == sector_of(angle, n),
        sector_of(angle - 360, n) == sector_of(angle, n),
{
    lemma_sector_reduce(angle + 360, n);
    lemma_sector_reduce(angle - 360, n);
    lemma_sector_reduce(angle, n);
    vstd::arithmetic::div_mod::lemma_mod_multiples_vanish(1, angle, 360);
    vstd::arithmetic::div_mod::lemma_mod_multiples_vanish(-1, angle, 360);
}

/// A drag that has not left the direction of the first alternate selects it.
pub proof fn lemma_sector_of_rest(n: int)
    requires
        n > 0,
    ensures
        sector_of(0, n) == 0,
{
    assert(0 * n + 180 == 180) by (nonlinear_arith);
    assert(360 * n >= 360) by (nonlinear_arith)
        requires
            n > 0,
    ;
    vstd::arithmetic::div_mod::lemma_small_mod(180, (360 * n) as nat);
}

/// The selected alternate is the one on whose arc the angle lies, and no
/// other alternate has the angle on its arc: the arcs tile the ring.
pub proof fn lemma_sector_is_arc(angle: int, n: int, k: int)
    requires
        n > 0,
        0 <= k < n,
    ensures
        on_arc_of(angle, n, k) <==> sector_of(angle, n) == k,
{
    let turn = 360 * n;
    let x = angle * n + 180;
    assert(turn > 0) by (nonlinear_arith)
        requires
            n > 0,
            turn == 360 * n,
    ;
    let r = x % turn;
    let q = x / turn;
    vstd::arithmetic::div_mod::lemma_fundamental_div_mod(x, turn);
    vstd::arithmetic::div_mod::lemma_mod_bound(x, turn);
    assert(angle * n - 360 * k + 180 == x - 360 * k);
    let y = x - 360 * k;
    let s = y % turn;
    let p = y / turn;
    vstd::arithmetic::div_mod::lemma_fundamental_div_mod(y, turn);
    vstd::arithmetic::div_mod::lemma_mod_bound(y, turn);
    if sector_of(angle, n) == k {
        // r lies in [360 k, 360 k + 360), so y is r - 360 k past a whole turn.
        vstd::arithmetic::div_mod::lemma_fundamental_div_mod(r, 360);
        vstd::arithmetic::div_mod::lemma_mod_bound(r, 360);
        let low = r % 360;
        assert(r == 360 * k + low);
        assert(y == q * turn + low) by (nonlinear_arith)
            requires
                x == turn * q + r,
                r == 360 * k + low,
                y == x - 360 * k,
        ;
        assert(0 <= low < turn);
        vstd::arithmetic::div_mod::lemma_fundamental_div_mod_converse(y, turn, q, low);
        assert(s == low);
    }
    if on_arc_of(angle, n, k) {
        // y is s past a whole turn with s < 360, so x is 360 k + s past it.
        assert(0 <= s < 360);
        assert(360 * k + 360 <= turn) by (nonlinear_arith)
            requires
                0 <= k < n,
                turn == 360 * n,
        ;
        assert(x == p * turn + (360 * k + s)) by (nonlinear_arith)
            requires
                y == turn * p + s,
                y == x - 360 * k,
        ;
        vstd::arithmetic::div_mod::lemma_fundamental_div_mod_converse(x, turn, p, 360 * k + s);
        assert(r == 360 * k + s);
        vstd::arithmetic::div_mod::lemma_fundamental_div_mod_converse(r, 360, k, s);
    }
}

/// Where the segments are a whole, even number of degrees wide, the sector is
/// found by moving the angle on by half a segment and counting the whole
/// segments that fit below it.
pub proof fn lemma_sector_by_chunks(angle: int, n: int)
    requires
        n > 0,
        180int % n == 0,
    ensures
        sector_of(angle, n) == ((angle + 360 + (360int / n) / 2) % 360) / (360int / n),
{
    let half = 180int / n;
    vstd::arithmetic::div_mod::lemma_fundamental_div_mod(180, n);
    assert(180 == n * half);
    assert(half >= 1) by (nonlinear_arith)
        requires
            180 == n * half,
            n > 0,
    ;
    let chunk = 2 * half;
    assert(360 == n * chunk) by (nonlinear_arith)
        requires
            180 == n * half,
            chunk == 2 * half,
    ;
    vstd::arithmetic::div_mod::lemma_fundamental_div_mod_converse(360, n, chunk, 0);
    assert(360int / n == chunk);
    vstd::arithmetic::div_mod::lemma_fundamental_div_mod_converse(chunk, 2, half, 0);
    assert(chunk / 2 == half);
    let y = angle + half;
    vstd::arithmetic::div_mod::lemma_mod_multiples_vanish(1, y, 360);
    assert((angle + 360 + half) % 360 == y % 360);
    let ry = y % 360;
    let qy = y / 360;
    vstd::arithmetic::div_mod::lemma_fundamental_div_mod(y, 360);
    vstd::arithmetic::div_mod::lemma_mod_bound(y, 360);
    let turn = 360 * n;
    assert(angle * n + 180 == qy * turn + ry * n) by (nonlinear_arith)
        requires
            y == 360 * qy + ry,
            y == angle + half,
            180 == n * half,
            turn == 360 * n,
    ;
    assert(0 <= ry * n < turn) by (nonlinear_arith)
        requires
            0 <= ry < 360,
            n > 0,
            turn == 360 * n,
    ;
    vstd::arithmetic::div_mod::lemma_fundamental_div_mod_converse(
        angle * n + 180,
        turn,
        qy,
        ry * n,
    );
    assert((angle * n + 180) % turn == ry * n);
    // Counting segments of `chunk` degrees in `ry` is counting units of 360
    // in `ry * n`.
    let k = ry / chunk;
    let low = ry % chunk;
    vstd::arithmetic::div_mod::lemma_fundamental_div_mod(ry, chunk);
    vstd::arithmetic::div_mod::lemma_mod_bound(ry, chunk);
    assert(ry * n == 360 * k + low * n) by (nonlinear_arith)
        requires
            ry == chunk * k + low,
            360 == n * chunk,
    ;
    assert(0 <= low * n < 360) by (nonlinear_arith)
        requires
            0 <= low < chunk,
            360 == n * chunk,
            n > 0,
    ;
    vstd::arithmetic::div_mod::lemma_fundamental_div_mod_converse(ry * n, 360, k, low * n);
}

} // verus!
