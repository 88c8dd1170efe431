//! The tone curve: from a patch's brightness to a position in the palette.

use vstd::prelude::*;

verus! {

/// The position in a palette of `palette_len` glyphs that a curve's level
/// selects: the level itself, held down to the last position.
pub open spec fn spec_glyph_index(level: int, palette_len: int) -> int {
    if level < palette_len - 1 {
        level
    } else {
        palette_len - 1
    }
}

/// Holds `level` down to the last position of a palette of `palette_len` glyphs.
pub fn glyph_index(level: usize, palette_len: usize) -> (index: usize)
    requires
        palette_len > 0,
    ensures
        index == spec_glyph_index(level as int, palette_len as int),
        index < palette_len,
{
    if level < palette_len - 1 {
        level
    } else {
        palette_len - 1
    }
}

/// For each brightness from 0 to 255, the palette position it is drawn
/// with. The curve is a table, so that whoever builds it is free in the
/// arithmetic that shapes it.
pub struct ToneCurve {
    levels: [usize; 256],
}

impl View for ToneCurve {
    type V = Seq<usize>;

    closed spec fn view(&self) -> Seq<usize> {
        self.levels@
    }
}

impl ToneCurve {
    /// A curve that sends brightness `b` to `levels[b]`.
    pub fn new(levels: [usize; 256]) -> (curve: ToneCurve)
        ensures
            curve@ == levels@,
            curve@.len() == 256,
    {
        ToneCurve { levels }
    }

    /// Whether a brighter patch never gets an earlier entry than a darker one.
    pub open spec fn non_decreasing(&self) -> bool {
        forall|a: int, b: int| 0 <= a <= b < 256 ==> self@[a] <= self@[b]
    }

    /// The curve's entry for `brightness`.
    pub fn level(&self, brightness: u8) -> (level: usize)
        ensures
            self@.len() == 256,
            level == self@[brightness as int],
    {
        self.levels[brightness as usize]
    }

    /// The palette position that `brightness` is drawn with.
    pub open spec fn spec_index_for(&self, brightness: int, palette_len: int) -> int {
        spec_glyph_index(self@[brightness] as int, palette_len)
    }

    /// The palette position that `brightness` is drawn with, in a palette
    /// of `palette_len` glyphs.
    pub fn index_for(&self, brightness: u8, palette_len: usize) -> (index: usize)
        requires
            palette_len > 0,
        ensures
            index == self.spec_index_for(brightness as int, palette_len as int),
            index < palette_len,
    {
        glyph_index(self.level(brightness), palette_len)
    }

    /// Tells whether the curve is non-decreasing.
    pub fn is_non_decreasing(&self) -> (res: bool)
        ensures
            res == self.non_decreasing(),
    {
        let mut b: usize = 1;
        while b < 256
            invariant
                1 <= b <= 256,
                self@.len() == 256,
                forall|i: int, j: int| 0 <= i <= j < b ==> self@[i] <= self@[j],
            decreases 256 - b,
        {
            if self.levels[b - 1] > self.levels[b] {
                return false;
            }
            b += 1;
        }
        true
    }
}

/// Holding a level down to the palette keeps the order of levels.
pub proof fn lemma_glyph_index_keeps_order(lower: int, higher: int, palette_len: int)
    requires
        lower <= higher,
    ensures
        spec_glyph_index(lower, palette_len) <= spec_glyph_index(higher, palette_len),
{
}

/// On a non-decreasing curve a brighter patch is never drawn with an
/// earlier glyph than a darker one.
pub proof fn lemma_brighter_is_not_denser(
    curve: &ToneCurve,
    darker: int,
    brighter: int,
    palette_len: int,
)
    requires
        curve.non_decreasing(),
        0 <= darker <= brighter < 256,
    ensures
        curve.spec_index_for(darker, palette_len) <= curve.spec_index_for(brighter, palette_len),
{
}

/// A curve that starts at 0 draws black with the first glyph, and one that
/// ends at the last position or beyond draws white with the last glyph.
pub proof fn lemma_curve_ends(curve: &ToneCurve, palette_len: int)
    requires
        palette_len > 0,
    ensures
        curve@[0] == 0 ==> curve.spec_index_for(0, palette_len) == 0,
        curve@[255] >= palette_len - 1 ==> curve.spec_index_for(255, palette_len) == palette_len
            - 1,
{
}

} // verus!
