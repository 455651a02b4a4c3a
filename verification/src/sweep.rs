//! The sweep pattern: a soft-edged vertical beam that crosses the window from
//! left to right and wraps around.

use vstd::prelude::*;
use vstd::arithmetic::div_mod::lemma_mod_multiples_vanish;
use vstd::arithmetic::div_mod::lemma_fundamental_div_mod;
use vstd::arithmetic::div_mod::lemma_div_is_ordered;
use vstd::arithmetic::div_mod::lemma_div_multiples_vanish;
use crate::color::{is_white_at, translucent_white, white, Color};
use crate::units::WHOLE;

verus! {

/// Width of the beam, as a fraction of the window width: four tenths.
pub const BEAM_WIDTH: u64 = 400_000_000;

/// Number of vertical slices the beam is painted with.
pub const SLICES: usize = 60;

/// Opacity the falloff is scaled to. No slice quite reaches it: the beam's
/// middle lies between the two middle slices.
pub const FULL_ALPHA: u8 = 255;

/// One vertical strip of the beam, from `left` to `right` in billionths of
/// the window width, counted from the window's left edge. A strip lies
/// outside the window while the beam enters or leaves it.
#[derive(Clone, Copy, Debug, PartialEq, Eq, Structural)]
pub struct Slice {
    pub left: i64,
    pub right: i64,
    pub alpha: u8,
    pub color: Color,
}

/// Distance the beam travels before it wraps: the window width plus the
/// beam's own width, so that the beam leaves the window entirely.
pub open spec fn sweep_period(beam_width: int) -> int {
    WHOLE as int + beam_width
}

/// Where in its travel the beam is after `elapsed` nanoseconds at `speed`
/// sweeps per second.
pub open spec fn sweep_phase(elapsed: int, speed: int, beam_width: int) -> int {
    (elapsed * speed) % sweep_period(beam_width)
}

/// Position of the beam's centre line, as a fraction of the window width.
pub open spec fn beam_center(elapsed: int, speed: int, beam_width: int) -> int {
    sweep_phase(elapsed, speed, beam_width) - beam_width / 2
}

/// Opacity of slice `i`: it rises linearly from nothing at the first slice to
/// its peak at the two middle slices and falls back to nothing at the last.
pub open spec fn slice_alpha(i: int) -> int {
    let last = SLICES as int - 1;
    let off_center = if 2 * i >= last {
        2 * i - last
    } else {
        last - 2 * i
    };
    (last - off_center) * FULL_ALPHA as int / last
}

/// Left edge of slice `i` of a beam centred at `center`; slice `i` ends where
/// slice `i + 1` begins.
pub open spec fn slice_edge(center: int, beam_width: int, i: int) -> int {
    center - beam_width / 2 + (i * beam_width) / (SLICES as int)
}

/// Slice `i` of a beam of width `beam_width` centred at `center`.
pub open spec fn slice_at(center: int, beam_width: int, i: int) -> Slice {
    Slice {
        left: slice_edge(center, beam_width, i) as i64,
        right: slice_edge(center, beam_width, i + 1) as i64,
        alpha: slice_alpha(i) as u8,
        color: translucent_white(slice_alpha(i) as u8),
    }
}

/// The slices of a beam, left to right.
pub open spec fn beam_at(center: int, beam_width: int) -> Seq<Slice> {
    Seq::new(SLICES as nat, |i: int| slice_at(center, beam_width, i))
}

/// Every slice is white at the opacity stored beside its colour.
pub open spec fn slices_are_white(slices: Seq<Slice>) -> bool {
    forall|i: int| 0 <= i < slices.len() ==> is_white_at(#[trigger] slices[i].color, slices[i].alpha)
}

/// Computes the beam centre for the given elapsed time.
pub fn sweep_center(elapsed: u64, speed: u64, beam_width: u64) -> (center: i64)
    requires
        beam_width <= WHOLE,
    ensures
        center == beam_center(elapsed as int, speed as int, beam_width as int),
        -(beam_width / 2) <= center < WHOLE + beam_width - beam_width / 2,
{
    assert(elapsed * speed <= u64::MAX * u64::MAX) by (nonlinear_arith)
        requires
            0 <= elapsed <= u64::MAX,
            0 <= speed <= u64::MAX,
    ;
    let cycles: u128 = (elapsed as u128) * (speed as u128);
    let period: u128 = WHOLE as u128 + beam_width as u128;
    let phase: u128 = cycles % period;
    let half: u64 = beam_width / 2;
    phase as i64 - half as i64
}

/// Opacity of slice `i`.
pub fn slice_opacity(i: usize) -> (alpha: u8)
    requires
        i < SLICES,
    ensures
        alpha == slice_alpha(i as int),
{
    let last: usize = SLICES - 1;
    let off_center: usize = if 2 * i >= last {
        2 * i - last
    } else {
        last - 2 * i
    };
    let full: usize = FULL_ALPHA as usize;
    assert((last - off_center) * full <= last * full) by (nonlinear_arith)
        requires
            0 <= off_center <= last,
            full >= 0,
    ;
    ((last - off_center) * full / last) as u8
}

/// Cuts a beam of width `beam_width` centred at `center` into its slices.
pub fn beam_slices(center: i64, beam_width: u64) -> (slices: Vec<Slice>)
    requires
        beam_width <= WHOLE,
        i64::MIN + WHOLE <= center <= i64::MAX - WHOLE,
    ensures
        slices@ == beam_at(center as int, beam_width as int),
        slices_are_white(slices@),
{
    let start: i64 = center - (beam_width / 2) as i64;
    let mut slices: Vec<Slice> = Vec::new();
    let mut i: usize = 0;
    while i < SLICES
        invariant
            i <= SLICES,
            beam_width <= WHOLE,
            i64::MIN + WHOLE <= center <= i64::MAX - WHOLE,
            start == center - beam_width / 2,
            slices@.len() == i,
            forall|j: int| 0 <= j < i ==> slices@[j] == slice_at(center as int, beam_width as int, j),
            slices_are_white(slices@),
        decreases SLICES - i,
    {
        assert(i * beam_width <= 59 * WHOLE && (i + 1) * beam_width <= 60 * WHOLE)
            by (nonlinear_arith)
            requires
                0 <= i < 60,
                0 <= beam_width <= WHOLE,
        ;
        let alpha: u8 = slice_opacity(i);
        let left: i64 = start + ((i as u64 * beam_width) / (SLICES as u64)) as i64;
        let right: i64 = start + (((i as u64 + 1) * beam_width) / (SLICES as u64)) as i64;
        slices.push(Slice { left, right, alpha, color: white(alpha) });
        i += 1;
    }
    slices
}

/// The beam as it is painted after `elapsed` nanoseconds at `speed` sweeps per
/// second.
pub fn render_sweep(elapsed: u64, speed: u64, beam_width: u64) -> (slices: Vec<Slice>)
    requires
        beam_width <= WHOLE,
    ensures
        slices@ == beam_at(
            beam_center(elapsed as int, speed as int, beam_width as int),
            beam_width as int,
        ),
        slices_are_white(slices@),
{
    beam_slices(sweep_center(elapsed, speed, beam_width), beam_width)
}

/// The beam is back where it was after any whole number of periods: a shift
/// of `shift` nanoseconds that amounts to exactly `cycles` periods at
/// `speed` leaves the centre unchanged.
pub proof fn sweep_repeats_every_period(
    elapsed: nat,
    shift: nat,
    cycles: nat,
    speed: nat,
    beam_width: nat,
)
    requires
        shift * speed == cycles * sweep_period(beam_width as int),
    ensures
        beam_center((elapsed + shift) as int, speed as int, beam_width as int) == beam_center(
            elapsed as int,
            speed as int,
            beam_width as int,
        ),
{
    let period: int = sweep_period(beam_width as int);
    let t: int = elapsed as int;
    let d: int = shift as int;
    let v: int = speed as int;
    let k: int = cycles as int;
    assert((t + d) * v == period * k + t * v) by (nonlinear_arith)
        requires
            d * v == k * period,
    ;
    lemma_mod_multiples_vanish(k, t * v, period);
}

/// Two instants show the beam at the same place only if they lie a whole
/// number of periods apart.
pub proof fn sweep_repeats_only_at_periods(earlier: nat, later: nat, speed: nat, beam_width: nat)
    requires
        beam_center(earlier as int, speed as int, beam_width as int) == beam_center(
            later as int,
            speed as int,
            beam_width as int,
        ),
    ensures
        (later * speed - earlier * speed) % sweep_period(beam_width as int) == 0,
{
    let period: int = sweep_period(beam_width as int);
    let a: int = (earlier as int) * (speed as int);
    let b: int = (later as int) * (speed as int);
    lemma_fundamental_div_mod(a, period);
    lemma_fundamental_div_mod(b, period);
    let k: int = b / period - a / period;
    assert(b - a == period * k + 0) by (nonlinear_arith)
        requires
            a == period * (a / period) + a % period,
            b == period * (b / period) + b % period,
            a % period == b % period,
            k == b / period - a / period,
    ;
    lemma_mod_multiples_vanish(k, 0, period);
}

/// The opacity profile is a symmetric triangle: zero at both edges, rising
/// towards the middle, where it peaks.
pub proof fn alpha_is_triangular(i: int, j: int)
    requires
        0 <= i <= j < SLICES,
    ensures
        slice_alpha(i) == slice_alpha(SLICES - 1 - i),
        slice_alpha(0) == 0,
        0 <= slice_alpha(i) <= slice_alpha(SLICES / 2 - 1) == 250,
        j < SLICES / 2 ==> slice_alpha(i) <= slice_alpha(j),
        i < j < SLICES / 2 ==> slice_alpha(i) < slice_alpha(j),
{
}

/// The slices tile the beam: the first begins at the beam's left edge, each
/// begins where the one before it ends, none is turned around, and the last
/// ends one beam width further right.
pub proof fn slices_tile_the_beam(center: int, beam_width: nat, i: int)
    requires
        0 <= i < SLICES,
    ensures
        slice_edge(center, beam_width as int, 0) == center - beam_width as int / 2,
        slice_edge(center, beam_width as int, SLICES as int) == center - beam_width as int / 2
            + beam_width,
        slice_edge(center, beam_width as int, i) <= slice_edge(center, beam_width as int, i + 1),
{
    let w: int = beam_width as int;
    let n: int = SLICES as int;
    assert(0 * w == 0);
    lemma_div_multiples_vanish(w, n);
    assert(i * w <= (i + 1) * w) by (nonlinear_arith)
        requires
            w >= 0,
    ;
    lemma_div_is_ordered(i * w, (i + 1) * w, n);
}

} // verus!
