//! The brightness-to-color gradient: black at brightness 0, rising through
//! green to white at brightness 255.

use vstd::arithmetic::div_mod::lemma_div_pos_is_pos;
use vstd::arithmetic::div_mod::lemma_multiply_divide_lt;
use vstd::arithmetic::mul::lemma_mul_inequality;
use vstd::arithmetic::mul::lemma_mul_upper_bound;
use vstd::prelude::*;

verus! {

/// An RGB color, one byte per channel.
#[derive(Clone, Copy, PartialEq, Eq, Debug)]
pub struct Rgb {
    pub r: u8,
    pub g: u8,
    pub b: u8,
}

/// The red channel for brightness `b`: the nearest integer to
/// `255 * (b/255)^7`, which as an exact rational is
/// `floor((2 * b^7 + 255^6) / (2 * 255^6))`.
pub open spec fn red_level(b: int) -> int {
    (2 * (b * b * b * b * b * b * b) + 274941996890625) / 549883993781250
}

/// The blue channel for brightness `b`: the nearest integer to
/// `255 * (b/255)^4`, which as an exact rational is
/// `floor((2 * b^4 + 255^3) / (2 * 255^3))`.
pub open spec fn blue_level(b: int) -> int {
    (2 * (b * b * b * b) + 16581375) / 33162750
}

/// The gradient: brightness `b` maps to channels `255 * (b/255)^k` rounded
/// to the nearest integer, with exponent 7 for red, 1 for green and 4 for
/// blue, so that green dominates at low brightness and red and blue only
/// appear near full brightness. The green channel `255 * (b/255)^1` is `b`
/// itself.
pub open spec fn gradient(b: u8) -> Rgb {
    Rgb { r: red_level(b as int) as u8, g: b, b: blue_level(b as int) as u8 }
}

/// Bounds on the powers of `b` up to the seventh, used for the red channel.
proof fn lemma_pow7_bounds(b: int, c: int)
    requires
        0 <= b <= c,
    ensures
        0 <= b * b <= c * c,
        0 <= b * b * b <= c * c * c,
        0 <= b * b * b * b <= c * c * c * c,
        0 <= b * b * b * b * b <= c * c * c * c * c,
        0 <= b * b * b * b * b * b <= c * c * c * c * c * c,
        0 <= b * b * b * b * b * b * b <= c * c * c * c * c * c * c,
{
    lemma_mul_upper_bound(b, c, b, c);
    lemma_mul_upper_bound(b * b, c * c, b, c);
    lemma_mul_upper_bound(b * b * b, c * c * c, b, c);
    lemma_mul_upper_bound(b * b * b * b, c * c * c * c, b, c);
    lemma_mul_upper_bound(b * b * b * b * b, c * c * c * c * c, b, c);
    lemma_mul_upper_bound(b * b * b * b * b * b, c * c * c * c * c * c, b, c);
}

/// The red channel always fits in a byte.
proof fn lemma_red_level_in_range(b: int)
    requires
        0 <= b <= 255,
    ensures
        0 <= red_level(b) <= 255,
{
    lemma_pow7_bounds(b, 255);
    lemma_div_pos_is_pos(2 * (b * b * b * b * b * b * b) + 274941996890625, 549883993781250);
    lemma_multiply_divide_lt(
        2 * (b * b * b * b * b * b * b) + 274941996890625,
        549883993781250,
        256,
    );
}

/// The blue channel always fits in a byte.
proof fn lemma_blue_level_in_range(b: int)
    requires
        0 <= b <= 255,
    ensures
        0 <= blue_level(b) <= 255,
{
    lemma_pow7_bounds(b, 255);
    lemma_div_pos_is_pos(2 * (b * b * b * b) + 16581375, 33162750);
    lemma_multiply_divide_lt(2 * (b * b * b * b) + 16581375, 33162750, 256);
}

/// Map a brightness value to its color on the green-dominant gradient.
pub fn color(brightness: u8) -> (c: Rgb)
    ensures
        c == gradient(brightness),
{
    let b: u64 = brightness as u64;
    proof {
        lemma_pow7_bounds(b as int, 255);
        lemma_red_level_in_range(b as int);
        lemma_blue_level_in_range(b as int);
    }
    let b2: u64 = b * b;
    let b3: u64 = b2 * b;
    let b4: u64 = b3 * b;
    let b5: u64 = b4 * b;
    let b6: u64 = b5 * b;
    let b7: u64 = b6 * b;
    let red: u64 = (2 * b7 + 274941996890625) / 549883993781250;
    let blue: u64 = (2 * b4 + 16581375) / 33162750;
    Rgb { r: red as u8, g: brightness, b: blue as u8 }
}

/// Law: the gradient is green-dominant away from its endpoints. For every
/// brightness strictly between black (0) and white (255), the red channel
/// and the blue channel are each strictly below the green channel.
pub proof fn lemma_gradient_green_dominant(b: u8)
    requires
        1 <= b <= 254,
    ensures
        gradient(b).r < gradient(b).g,
        gradient(b).b < gradient(b).g,
{
    let bi = b as int;
    lemma_red_level_in_range(bi);
    lemma_blue_level_in_range(bi);
    // Red: the numerator stays below (2 * 255^6) * b, so the floored
    // quotient stays below b.
    if bi <= 21 {
        lemma_pow7_bounds(bi, 21);
    } else {
        lemma_pow7_bounds(bi, 254);
        lemma_mul_inequality(bi * bi * bi * bi * bi * bi, 268535866540096, bi);
    }
    assert(2 * (bi * bi * bi * bi * bi * bi * bi) + 274941996890625 < 549883993781250 * bi);
    lemma_multiply_divide_lt(
        2 * (bi * bi * bi * bi * bi * bi * bi) + 274941996890625,
        549883993781250,
        bi,
    );
    // Blue: the numerator stays below (2 * 255^3) * b.
    if bi <= 42 {
        lemma_pow7_bounds(bi, 42);
    } else {
        lemma_pow7_bounds(bi, 254);
        lemma_mul_inequality(bi * bi * bi, 16387064, bi);
    }
    assert(2 * (bi * bi * bi * bi) + 16581375 < 33162750 * bi);
    lemma_multiply_divide_lt(2 * (bi * bi * bi * bi) + 16581375, 33162750, bi);
}

} // verus!
