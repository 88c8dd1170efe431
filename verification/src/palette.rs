//! Palettes: glyphs ordered from the densest to the sparsest.

use vstd::prelude::*;

verus! {

/// The sixty-nine glyphs of the extended palette, densest first.
pub open spec fn extended_glyphs() -> Seq<char> {
    seq![
        '$', '@', 'B', '%', '8', '&', 'W', 'M', '#', '*',
        'o', 'a', 'h', 'k', 'b', 'd', 'p', 'q', 'w', 'm',
        'Z', 'O', '0', 'Q', 'L', 'C', 'J', 'U', 'Y', 'X',
        'z', 'c', 'v', 'u', 'n', 'x', 'r', 'j', 'f', 't',
        '/', '\\', '|', '(', ')', '1', '{', '}', '[', ']',
        '?', '-', '_', '+', '~', '<', '>', 'i', '!', 'l',
        'I', ';', ':', ',', '"', '^', '`', '.', ' ',
    ]
}

/// The fourteen glyphs of the reduced palette, densest first.
pub open spec fn reduced_glyphs() -> Seq<char> {
    seq!['$', '@', '%', '&', '#', '/', '\\', '|', '(', ')', '~', ',', '.', ' ']
}

/// An ordered sequence of glyphs. Index 0 holds the glyph that looks
/// darkest on the page, the last index the one that looks lightest.
pub struct Palette {
    glyphs: Vec<char>,
}

impl View for Palette {
    type V = Seq<char>;

    closed spec fn view(&self) -> Seq<char> {
        self.glyphs@
    }
}

impl Palette {
    /// A palette needs two glyphs at least, one for each end of the scale.
    pub open spec fn usable(&self) -> bool {
        self@.len() >= 2
    }

    /// A palette of the given glyphs, in the given order.
    pub fn new(glyphs: Vec<char>) -> (p: Palette)
        ensures
            p@ == glyphs@,
    {
        Palette { glyphs }
    }

    /// The built-in palette of sixty-nine glyphs.
    pub fn extended() -> (p: Palette)
        ensures
            p@ == extended_glyphs(),
            p@.len() == 69,
            p.usable(),
    {
        let glyphs: Vec<char> = vec![
            '$', '@', 'B', '%', '8', '&', 'W', 'M', '#', '*',
            'o', 'a', 'h', 'k', 'b', 'd', 'p', 'q', 'w', 'm',
            'Z', 'O', '0', 'Q', 'L', 'C', 'J', 'U', 'Y', 'X',
            'z', 'c', 'v', 'u', 'n', 'x', 'r', 'j', 'f', 't',
            '/', '\\', '|', '(', ')', '1', '{', '}', '[', ']',
            '?', '-', '_', '+', '~', '<', '>', 'i', '!', 'l',
            'I', ';', ':', ',', '"', '^', '`', '.', ' ',
        ];
        assert(glyphs@ =~= extended_glyphs());
        Palette { glyphs }
    }

    /// The built-in palette of fourteen glyphs.
    pub fn reduced() -> (p: Palette)
        ensures
            p@ == reduced_glyphs(),
            p@.len() == 14,
            p.usable(),
    {
        let glyphs: Vec<char> = vec![
            '$', '@', '%', '&', '#', '/', '\\', '|', '(', ')', '~', ',', '.', ' ',
        ];
        assert(glyphs@ =~= reduced_glyphs());
        Palette { glyphs }
    }

    /// One of the two built-in palettes: the extended one if `extended`
    /// is set, else the reduced one.
    pub fn builtin(extended: bool) -> (p: Palette)
        ensures
            p@ == if extended {
                extended_glyphs()
            } else {
                reduced_glyphs()
            },
            p.usable(),
    {
        if extended {
            Palette::extended()
        } else {
            Palette::reduced()
        }
    }

    /// The number of glyphs.
    pub fn len(&self) -> (n: usize)
        ensures
            n == self@.len(),
    {
        self.glyphs.len()
    }

    /// The glyph at `index`.
    pub fn glyph(&self, index: usize) -> (c: char)
        requires
            index < self@.len(),
        ensures
            c == self@[index as int],
    {
        self.glyphs[index]
    }
}

} // verus!
