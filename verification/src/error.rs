//! The reasons for which a rendering is refused.

use vstd::prelude::*;

verus! {

/// Why a rendering was refused.
#[derive(Debug, Clone, Copy, PartialEq, Eq)]
pub enum RenderError {
    /// The requested grid has no columns or no rows.
    InvalidConfiguration,
    /// The palette has fewer than two glyphs.
    EmptyPalette,
}

impl RenderError {
    /// The words that describe the error.
    pub open spec fn spec_message(&self) -> Seq<char> {
        match self {
            RenderError::InvalidConfiguration => "width and height must be greater than zero"@,
            RenderError::EmptyPalette => "the palette needs at least two glyphs"@,
        }
    }

    /// The words that describe the error.
    pub fn message(&self) -> (text: &'static str)
        ensures
            text@ == self.spec_message(),
    {
        match self {
            RenderError::InvalidConfiguration => "width and height must be greater than zero",
            RenderError::EmptyPalette => "the palette needs at least two glyphs",
        }
    }
}

} // verus!
