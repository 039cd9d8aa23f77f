//! ASCII text as sprites: a string becomes one glyph sprite per byte,
//! advancing one tile width per character, plus verified decimal
//! rendering for the health read-out.

use vstd::prelude::*;

use crate::TILE_UNITS;

verus! {

/// One glyph of a text label: the sprite-sheet index and the x offset
/// from the label's anchor, in world units.
#[derive(Clone, Copy, Debug, PartialEq, Eq, Structural)]
pub struct GlyphSprite {
    pub index: u8,
    pub dx: i32,
}

/// Lay a byte string out as glyph sprites: the i-th byte becomes the
/// i-th glyph, one tile width further right each time.
pub fn create_text(text: &Vec<u8>) -> (r: Vec<GlyphSprite>)
    requires
        text@.len() <= 100_000,
    ensures
        r@.len() == text@.len(),
        forall|i: int|
            0 <= i < r@.len() ==> (#[trigger] r@[i]).index == text@[i] && r@[i].dx == i
                * TILE_UNITS,
{
    let mut r: Vec<GlyphSprite> = Vec::new();
    let mut i: usize = 0;
    while i < text.len()
        invariant
            0 <= i <= text@.len(),
            text@.len() <= 100_000,
            r@.len() == i,
            forall|k: int|
                0 <= k < i ==> (#[trigger] r@[k]).index == text@[k] && r@[k].dx == k * TILE_UNITS,
        decreases text@.len() - i,
    {
        r.push(GlyphSprite { index: text[i], dx: (i as i32) * TILE_UNITS });
        i = i + 1;
    }
    r
}

/// The decimal digits of `n`, most significant first, as ASCII bytes.
pub open spec fn dec_digits(n: nat) -> Seq<u8>
    decreases n,
{
    if n < 10 {
        seq![(48 + n) as u8]
    } else {
        dec_digits(n / 10).push((48 + n % 10) as u8)
    }
}

/// The decimal rendering of `v`, with a leading `-` when negative.
pub open spec fn dec_label(v: int) -> Seq<u8> {
    if v < 0 {
        seq![45u8] + dec_digits((-v) as nat)
    } else {
        dec_digits(v as nat)
    }
}

/// The bytes of `"Health: "` followed by the decimal rendering of
/// `h`.
pub open spec fn health_label(h: int) -> Seq<u8> {
    seq![72u8, 101, 97, 108, 116, 104, 58, 32] + dec_label(h)
}

/// Append the decimal digits of `n` to `out`.
fn push_digits(n: u64, out: &mut Vec<u8>)
    ensures
        final(out)@ == old(out)@ + dec_digits(n as nat),
    decreases n,
{
    if n < 10 {
        out.push(48 + (n as u8));
        assert(out@ =~= old(out)@ + dec_digits(n as nat));
    } else {
        proof {
            assert(n / 10 < n) by (nonlinear_arith)
                requires
                    n >= 10,
            ;
        }
        push_digits(n / 10, out);
        out.push(48 + ((n % 10) as u8));
        assert(out@ =~= old(out)@ + dec_digits(n as nat));
    }
}

/// Render `v` in decimal.
pub fn format_i64(v: i64) -> (r: Vec<u8>)
    ensures
        r@ == dec_label(v as int),
{
    let mut r: Vec<u8> = Vec::new();
    if v < 0 {
        r.push(45);
        let m: u64 = ((-(v + 1)) as u64) + 1;
        assert(m == -(v as int));
        push_digits(m, &mut r);
        assert(r@ =~= seq![45u8] + dec_digits(m as nat));
    } else {
        push_digits(v as u64, &mut r);
        assert(Seq::<u8>::empty() + dec_digits(v as nat) =~= dec_digits(v as nat));
    }
    r
}

/// The health read-out shown next to an enemy.
pub fn health_text(h: i64) -> (r: Vec<u8>)
    ensures
        r@ == health_label(h as int),
{
    let mut r: Vec<u8> = Vec::new();
    r.push(72);  // 'H'
    r.push(101);  // 'e'
    r.push(97);  // 'a'
    r.push(108);  // 'l'
    r.push(116);  // 't'
    r.push(104);  // 'h'
    r.push(58);  // ':'
    r.push(32);  // ' '
    let digits = format_i64(h);
    let mut i: usize = 0;
    assert(r@ =~= seq![72u8, 101, 97, 108, 116, 104, 58, 32] + digits@.take(0));
    while i < digits.len()
        invariant
            0 <= i <= digits@.len(),
            digits@ == dec_label(h as int),
            r@ == seq![72u8, 101, 97, 108, 116, 104, 58, 32] + digits@.take(i as int),
        decreases digits@.len() - i,
    {
        r.push(digits[i]);
        assert(r@ =~= seq![72u8, 101, 97, 108, 116, 104, 58, 32] + digits@.take(i + 1));
        i = i + 1;
    }
    assert(digits@.take(digits@.len() as int) =~= digits@);
    r
}

} // verus!
