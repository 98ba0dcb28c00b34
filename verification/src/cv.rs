use vstd::prelude::*;
use crate::text::{has_substring, lowercased, contains_text, lowercase};

verus! {

/// `v / d` with the quotient rounded toward zero, as integer division does.
pub open spec fn div_toward_zero(v: int, d: int) -> int {
    if v >= 0 { v / d } else { -((-v) / d) }
}

/// `v / d` for a positive `d`, rounded toward zero.
pub(crate) fn quotient_toward_zero(v: i32, d: i32) -> (r: i32)
    requires
        d > 0,
    ensures
        r as int == div_toward_zero(v as int, d as int),
{
    let w = v as i64;
    let e = d as i64;
    let q = if w >= 0 { w / e } else { -((-w) / e) };
    proof {
        let m: int = if w >= 0 { w as int } else { -w };
        vstd::arithmetic::div_mod::lemma_div_is_ordered_by_denominator(m, 1, e as int);
        vstd::arithmetic::div_mod::lemma_div_basics(m);
    }
    q as i32
}

/// A rectangle of the screen: its top-left corner and its size.
#[derive(Debug, Clone, Copy, PartialEq, Eq)]
pub struct Region {
    pub x: i32,
    pub y: i32,
    pub width: i32,
    pub height: i32,
}

/// The part of a `width` by `height` frame where the game prints whose turn
/// it is: from the left edge, a quarter of the way down, half the height, and
/// all but 300 pixels of the width.
pub fn turn_region(width: i32, height: i32) -> (r: Region)
    requires
        width >= i32::MIN + 300,
    ensures
        r.x == 0,
        r.y as int == div_toward_zero(height as int, 4),
        r.width == width - 300,
        r.height as int == div_toward_zero(height as int, 2),
{
    Region {
        x: 0,
        y: quotient_toward_zero(height, 4),
        width: width - 300,
        height: quotient_toward_zero(height, 2),
    }
}

/// The box of the word part with a margin of ten pixels on every side.
pub fn expand_region(r: Region) -> (e: Region)
    requires
        r.x >= i32::MIN + 10,
        r.y >= i32::MIN + 10,
        r.width <= i32::MAX - 20,
        r.height <= i32::MAX - 20,
    ensures
        e.x == r.x - 10,
        e.y == r.y - 10,
        e.width == r.width + 20,
        e.height == r.height + 20,
{
    Region { x: r.x - 10, y: r.y - 10, width: r.width + 20, height: r.height + 20 }
}

/// A lowercased reading of the turn banner says that it is the player's turn.
pub fn mentions_quick(lowered: &str) -> (r: bool)
    ensures
        r == has_substring(lowered@, "quick"@),
{
    contains_text(lowered, "quick")
}

/// The text read from the turn banner says, in any case, that it is the
/// player's turn.
pub fn is_your_turn(white_text: &str) -> (r: bool)
    ensures
        r == has_substring(lowercased(white_text@), "quick"@),
{
    let lowered = lowercase(white_text);
    mentions_quick(lowered.as_str())
}

} // verus!
