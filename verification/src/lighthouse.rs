//! The lighthouse pattern: a bright wedge with a soft halo that turns about
//! the centre of the window.

use vstd::prelude::*;
use vstd::arithmetic::div_mod::lemma_fundamental_div_mod;
use vstd::arithmetic::div_mod::lemma_fundamental_div_mod_converse;
use vstd::arithmetic::div_mod::lemma_mod_bound;
use crate::color::{is_white_at, opaque_white, translucent_white, white, Color};
use crate::units::WHOLE;

verus! {

/// Half the opening angle of the halo, in milliradians.
pub const OUTER_HALF_ANGLE: u64 = 300;

/// Half the opening angle of the bright core, in milliradians.
pub const INNER_HALF_ANGLE: u64 = 150;

/// Opacity of the halo.
pub const OUTER_ALPHA: u8 = 80;

/// Opacity of the core.
pub const INNER_ALPHA: u8 = 255;

/// Length of the wedges in thousandths of the window's diagonal.
pub const RADIUS_PER_MILLE: u64 = 600;

/// A wedge with its tip at the window's centre, opening `half_angle`
/// milliradians to either side of the beam's direction.
#[derive(Clone, Copy, Debug, PartialEq, Eq, Structural)]
pub struct Wedge {
    pub half_angle: u64,
    pub alpha: u8,
    pub color: Color,
}

/// The beam at one instant: its direction in billionths of a turn, its
/// length in thousandths of the window's diagonal, and the two wedges to
/// paint, the halo first.
#[derive(Clone, Copy, Debug, PartialEq, Eq, Structural)]
pub struct Beacon {
    pub angle: u64,
    pub radius: u64,
    pub outer: Wedge,
    pub inner: Wedge,
}

impl Beacon {
    /// Both wedges are white at the opacity stored beside their colour.
    pub open spec fn is_white(self) -> bool {
        &&& is_white_at(self.outer.color, self.outer.alpha)
        &&& is_white_at(self.inner.color, self.inner.alpha)
    }
}

/// Direction of the beam after `elapsed` nanoseconds at `hz` turns per
/// second, as a fraction of a turn.
pub open spec fn beam_angle(elapsed: int, hz: int) -> int {
    (elapsed * hz) % (WHOLE as int)
}

/// Whole turns completed after `elapsed` nanoseconds at `hz` turns per second.
pub open spec fn revolutions(elapsed: int, hz: int) -> int {
    (elapsed * hz) / (WHOLE as int)
}

/// The halo.
pub open spec fn outer_wedge() -> Wedge {
    Wedge {
        half_angle: OUTER_HALF_ANGLE,
        alpha: OUTER_ALPHA,
        color: translucent_white(OUTER_ALPHA),
    }
}

/// The bright core, half as wide as the halo and opaque.
pub open spec fn inner_wedge() -> Wedge {
    Wedge { half_angle: INNER_HALF_ANGLE, alpha: INNER_ALPHA, color: opaque_white() }
}

/// The beam as it is painted after `elapsed` nanoseconds.
pub open spec fn beacon_at(elapsed: int, hz: int) -> Beacon {
    Beacon {
        angle: beam_angle(elapsed, hz) as u64,
        radius: RADIUS_PER_MILLE,
        outer: outer_wedge(),
        inner: inner_wedge(),
    }
}

/// Computes the beam's direction for the given elapsed time.
pub fn lighthouse_angle(elapsed: u64, hz: u64) -> (angle: u64)
    ensures
        angle == beam_angle(elapsed as int, hz as int),
        angle < WHOLE,
{
    assert(elapsed * hz <= u64::MAX * u64::MAX) by (nonlinear_arith)
        requires
            0 <= elapsed <= u64::MAX,
            0 <= hz <= u64::MAX,
    ;
    let turned: u128 = (elapsed as u128) * (hz as u128);
    (turned % (WHOLE as u128)) as u64
}

/// The beam with its two wedges after `elapsed` nanoseconds at `hz` turns per
/// second.
pub fn render_lighthouse(elapsed: u64, hz: u64) -> (beacon: Beacon)
    ensures
        beacon == beacon_at(elapsed as int, hz as int),
        beacon.is_white(),
{
    Beacon {
        angle: lighthouse_angle(elapsed, hz),
        radius: RADIUS_PER_MILLE,
        outer: Wedge {
            half_angle: OUTER_HALF_ANGLE,
            alpha: OUTER_ALPHA,
            color: white(OUTER_ALPHA),
        },
        inner: Wedge {
            half_angle: INNER_HALF_ANGLE,
            alpha: INNER_ALPHA,
            color: white(INNER_ALPHA),
        },
    }
}

/// The beam only ever turns forward: counted with its completed turns, the
/// angle at a later instant is strictly greater, and within one turn the
/// angle itself is.
pub proof fn lighthouse_turns_forward(earlier: nat, later: nat, hz: nat)
    requires
        earlier < later,
        hz >= 1,
    ensures
        revolutions(earlier as int, hz as int) * WHOLE + beam_angle(earlier as int, hz as int)
            < revolutions(later as int, hz as int) * WHOLE + beam_angle(later as int, hz as int),
        revolutions(earlier as int, hz as int) <= revolutions(later as int, hz as int),
        revolutions(earlier as int, hz as int) == revolutions(later as int, hz as int)
            ==> beam_angle(earlier as int, hz as int) < beam_angle(later as int, hz as int),
{
    let a: int = (earlier as int) * (hz as int);
    let b: int = (later as int) * (hz as int);
    assert(a < b) by (nonlinear_arith)
        requires
            a == (earlier as int) * (hz as int),
            b == (later as int) * (hz as int),
            earlier < later,
            hz >= 1,
    ;
    lemma_fundamental_div_mod(a, WHOLE as int);
    lemma_fundamental_div_mod(b, WHOLE as int);
    lemma_mod_bound(a, WHOLE as int);
    lemma_mod_bound(b, WHOLE as int);
}

/// The beam completes one turn every `1 / hz` seconds: after a shift of
/// `shift` nanoseconds that amounts to exactly `turns` periods it points the
/// same way, with `turns` more turns behind it.
pub proof fn lighthouse_turns_once_per_period(elapsed: nat, shift: nat, turns: nat, hz: nat)
    requires
        shift * hz == turns * WHOLE,
    ensures
        beam_angle((elapsed + shift) as int, hz as int) == beam_angle(elapsed as int, hz as int),
        revolutions((elapsed + shift) as int, hz as int) == revolutions(
            elapsed as int,
            hz as int,
        ) + turns,
{
    let t: int = elapsed as int;
    let d: int = shift as int;
    let v: int = hz as int;
    let k: int = turns as int;
    let w: int = WHOLE as int;
    let a: int = t * v;
    lemma_fundamental_div_mod(a, w);
    lemma_mod_bound(a, w);
    assert((t + d) * v == (a / w + k) * w + a % w) by (nonlinear_arith)
        requires
            a == t * v,
            d * v == k * w,
            a == w * (a / w) + a % w,
    ;
    lemma_fundamental_div_mod_converse((t + d) * v, w, a / w + k, a % w);
}

} // verus!
