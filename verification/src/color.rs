//! Colours in the form the painter stores them.

use vstd::prelude::*;

verus! {

/// A colour as four bytes with the alpha already multiplied into the red,
/// green and blue channels.
#[derive(Clone, Copy, Debug, PartialEq, Eq, Structural)]
pub struct Color {
    pub r: u8,
    pub g: u8,
    pub b: u8,
    pub a: u8,
}

/// Opaque white.
pub open spec fn opaque_white() -> Color {
    Color { r: 255, g: 255, b: 255, a: 255 }
}

/// A colour that leaves what lies under it unchanged.
pub open spec fn transparent() -> Color {
    Color { r: 0, g: 0, b: 0, a: 0 }
}

/// The colour that `egui::Color32::from_rgba_unmultiplied` makes of the given
/// channels and separate alpha, as the four bytes it stores. How the channels
/// are scaled and rounded is the painter's business; the name stands for
/// whatever it computes.
pub uninterp spec fn premultiplied(r: u8, g: u8, b: u8, a: u8) -> Color;

/// White at the given opacity, as the painter stores it.
pub open spec fn translucent_white(alpha: u8) -> Color {
    premultiplied(255, 255, 255, alpha)
}

/// What is known of a colour that is white at opacity `alpha`: it is the
/// colour the painter computes, it carries that opacity, and it is fully
/// transparent or plain white where the opacity is none or full.
pub open spec fn is_white_at(color: Color, alpha: u8) -> bool {
    &&& color == translucent_white(alpha)
    &&& color.a == alpha
    &&& alpha == 0 ==> color == transparent()
    &&& alpha == 255 ==> color == opaque_white()
}

/// Calls `egui::Color32::from_rgba_unmultiplied` and copies out the four
/// bytes of the result. Taken on trust: the result is a function of the
/// arguments, its alpha byte is the alpha given, alpha 0 yields all zeroes,
/// and alpha 255 yields the channels unchanged.
#[verifier::external_body]
fn premultiply(r: u8, g: u8, b: u8, a: u8) -> (out: Color)
    ensures
        out == premultiplied(r, g, b, a),
        out.a == a,
        a == 0 ==> out == transparent(),
        a == 255 ==> out == (Color { r, g, b, a: 255 }),
{
    let [pr, pg, pb, pa] = egui::Color32::from_rgba_unmultiplied(r, g, b, a).to_array();
    Color { r: pr, g: pg, b: pb, a: pa }
}

/// White at opacity `alpha`, from fully transparent (0) to opaque (255).
pub fn white(alpha: u8) -> (out: Color)
    ensures
        is_white_at(out, alpha),
{
    premultiply(255, 255, 255, alpha)
}

} // verus!
