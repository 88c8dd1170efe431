//! Rendering: from an image and a configuration to lines of glyphs.

use crate::error::RenderError;
use crate::grid::{
    grid_extent, lemma_patch_count_bounds, lemma_patch_count_within_request, patch_count,
    patch_extent, Grid,
};
use crate::palette::Palette;
use crate::raster::Image;
use crate::tone::ToneCurve;
use vstd::prelude::*;

verus! {

/// `String::push` of the standard library. Trusted: the string afterwards
/// is the string before with `ch` appended at its end.
pub assume_specification[ String::push ](s: &mut String, ch: char)
    ensures
        final(s)@ == old(s)@.push(ch),
;

/// The number of glyphs per line that is asked for where nothing else is said.
pub const DEFAULT_TARGET_WIDTH: u32 = 64;

/// The number of lines that is asked for where nothing else is said.
pub const DEFAULT_TARGET_HEIGHT: u32 = 64;

/// What a rendering is made with.
pub struct Config {
    /// The requested number of glyphs per line.
    pub target_width: u32,
    /// The requested number of lines.
    pub target_height: u32,
    /// The glyphs to draw with.
    pub palette: Palette,
    /// The palette position for each brightness.
    pub curve: ToneCurve,
}

impl Config {
    /// A configuration that asks for the default grid, drawn with the
    /// given palette and curve.
    pub fn new(palette: Palette, curve: ToneCurve) -> (config: Config)
        ensures
            config.target_width == DEFAULT_TARGET_WIDTH,
            config.target_height == DEFAULT_TARGET_HEIGHT,
            config.palette == palette,
            config.curve == curve,
    {
        Config {
            target_width: DEFAULT_TARGET_WIDTH,
            target_height: DEFAULT_TARGET_HEIGHT,
            palette,
            curve,
        }
    }
}

/// The sum of the luminance of the `n` pixels of row `y` that start at column `x0`.
pub open spec fn row_sum(image: &Image, x0: int, y: int, n: nat) -> int
    decreases n,
{
    if n == 0 {
        0
    } else {
        row_sum(image, x0, y, (n - 1) as nat) + image.luminance(x0 + n - 1, y)
    }
}

/// The sum of the luminance of the pixels in the rectangle of `width` by
/// `rows` pixels whose top left corner is at `(x0, y0)`.
pub open spec fn patch_sum(image: &Image, x0: int, y0: int, width: nat, rows: nat) -> int
    decreases rows,
{
    if rows == 0 {
        0
    } else {
        patch_sum(image, x0, y0, width, (rows - 1) as nat) + row_sum(
            image,
            x0,
            y0 + rows - 1,
            width,
        )
    }
}

/// The brightness of a patch: the mean luminance of its pixels, rounded down.
pub open spec fn spec_patch_brightness(
    image: &Image,
    x0: int,
    y0: int,
    width: nat,
    height: nat,
) -> int
    recommends
        width > 0,
        height > 0,
{
    patch_sum(image, x0, y0, width, height) / (width * height) as int
}

/// A row's sum lies between nothing and full luminance on every pixel.
pub proof fn lemma_row_sum_bounds(image: &Image, x0: int, y: int, n: nat)
    ensures
        0 <= row_sum(image, x0, y, n) <= 255 * n,
    decreases n,
{
    if n > 0 {
        lemma_row_sum_bounds(image, x0, y, (n - 1) as nat);
    }
}

/// A patch's sum lies between nothing and full luminance on every pixel.
pub proof fn lemma_patch_sum_bounds(image: &Image, x0: int, y0: int, width: nat, rows: nat)
    ensures
        0 <= patch_sum(image, x0, y0, width, rows) <= 255 * (width * rows),
    decreases rows,
{
    if rows > 0 {
        lemma_patch_sum_bounds(image, x0, y0, width, (rows - 1) as nat);
        lemma_row_sum_bounds(image, x0, y0 + rows - 1, width);
        assert(width * rows == width * (rows - 1) + width) by (nonlinear_arith);
    } else {
        assert(width * rows == 0) by (nonlinear_arith)
            requires
                rows == 0,
        ;
    }
}

/// The brightness of a patch is a luminance: it lies between 0 and 255.
pub proof fn lemma_patch_brightness_bounds(
    image: &Image,
    x0: int,
    y0: int,
    width: nat,
    height: nat,
)
    requires
        width > 0,
        height > 0,
    ensures
        0 <= spec_patch_brightness(image, x0, y0, width, height) <= 255,
{
    lemma_patch_sum_bounds(image, x0, y0, width, height);
    let sum = patch_sum(image, x0, y0, width, height);
    let area = (width * height) as int;
    assert(0 <= sum / area <= 255) by (nonlinear_arith)
        requires
            0 <= sum <= 255 * area,
            area == width * height,
            width > 0,
            height > 0,
    ;
}

/// Whether every pixel of the rectangle of `width` by `height` pixels
/// whose top left corner is at `(x0, y0)` has luminance `value`.
pub open spec fn uniform_patch(
    image: &Image,
    x0: int,
    y0: int,
    width: nat,
    height: nat,
    value: int,
) -> bool {
    forall|x: int, y: int|
        x0 <= x < x0 + width && y0 <= y < y0 + height ==> #[trigger] image.luminance(x, y)
            == value
}

/// A patch whose pixels all have the same luminance has that brightness:
/// a black patch has brightness 0, a white one 255.
pub proof fn lemma_uniform_patch_brightness(
    image: &Image,
    x0: int,
    y0: int,
    width: nat,
    height: nat,
    value: int,
)
    requires
        width > 0,
        height > 0,
        uniform_patch(image, x0, y0, width, height, value),
    ensures
        spec_patch_brightness(image, x0, y0, width, height) == value,
{
    lemma_uniform_patch_sum(image, x0, y0, width, height, height, value);
    let area = (width * height) as int;
    assert((value * area) / area == value) by (nonlinear_arith)
        requires
            area == width * height,
            width > 0,
            height > 0,
    ;
}

proof fn lemma_uniform_row_sum(
    image: &Image,
    x0: int,
    y: int,
    width: nat,
    n: nat,
    value: int,
)
    requires
        n <= width,
        forall|x: int| x0 <= x < x0 + width ==> #[trigger] image.luminance(x, y) == value,
    ensures
        row_sum(image, x0, y, n) == value * n,
    decreases n,
{
    if n > 0 {
        lemma_uniform_row_sum(image, x0, y, width, (n - 1) as nat, value);
        assert(image.luminance(x0 + n - 1, y) == value);
        assert(value * (n - 1) + value == value * n) by (nonlinear_arith);
    } else {
        assert(value * n == 0) by (nonlinear_arith)
            requires
                n == 0,
        ;
    }
}

proof fn lemma_uniform_patch_sum(
    image: &Image,
    x0: int,
    y0: int,
    width: nat,
    height: nat,
    rows: nat,
    value: int,
)
    requires
        rows <= height,
        uniform_patch(image, x0, y0, width, height, value),
    ensures
        patch_sum(image, x0, y0, width, rows) == value * (width * rows),
    decreases rows,
{
    if rows > 0 {
        lemma_uniform_patch_sum(image, x0, y0, width, height, (rows - 1) as nat, value);
        lemma_uniform_row_sum(image, x0, y0 + rows - 1, width, width, value);
        assert(value * (width * (rows - 1)) + value * width == value * (width * rows))
            by (nonlinear_arith);
    } else {
        assert(value * (width * rows) == 0) by (nonlinear_arith)
            requires
                rows == 0,
        ;
    }
}

/// The mean luminance, rounded down, of the patch of `patch_width` by
/// `patch_height` pixels whose top left corner is at `(x0, y0)`.
pub fn patch_brightness(image: &Image, x0: u32, y0: u32, patch_width: u32, patch_height: u32) -> (b:
    u8)
    requires
        image.wf(),
        patch_width > 0,
        patch_height > 0,
        x0 + patch_width <= image.spec_width(),
        y0 + patch_height <= image.spec_height(),
    ensures
        b == spec_patch_brightness(
            image,
            x0 as int,
            y0 as int,
            patch_width as nat,
            patch_height as nat,
        ),
{
    let mut total: u128 = 0;
    let mut dy: u32 = 0;
    while dy < patch_height
        invariant
            image.wf(),
            dy <= patch_height,
            x0 + patch_width <= image.spec_width(),
            y0 + patch_height <= image.spec_height(),
            total == patch_sum(image, x0 as int, y0 as int, patch_width as nat, dy as nat),
        decreases patch_height - dy,
    {
        let mut line: u64 = 0;
        let mut dx: u32 = 0;
        while dx < patch_width
            invariant
                image.wf(),
                dx <= patch_width,
                dy < patch_height,
                x0 + patch_width <= image.spec_width(),
                y0 + patch_height <= image.spec_height(),
                line == row_sum(image, x0 as int, y0 + dy, dx as nat),
                line <= 255 * dx,
            decreases patch_width - dx,
        {
            let l: u8 = image.luminance_at(x0 + dx, y0 + dy);
            line += l as u64;
            dx += 1;
        }
        proof {
            lemma_patch_sum_bounds(image, x0 as int, y0 as int, patch_width as nat, dy as nat);
            assert(patch_width * dy <= 0xffff_ffff * 0xffff_ffff) by (nonlinear_arith)
                requires
                    0 <= patch_width <= 0xffff_ffff,
                    0 <= dy <= 0xffff_ffff,
            ;
        }
        total += line as u128;
        dy += 1;
    }
    proof {
        lemma_patch_brightness_bounds(
            image,
            x0 as int,
            y0 as int,
            patch_width as nat,
            patch_height as nat,
        );
        assert(0 < patch_width * patch_height <= 0xffff_ffff * 0xffff_ffff) by (nonlinear_arith)
            requires
                0 < patch_width <= 0xffff_ffff,
                0 < patch_height <= 0xffff_ffff,
        ;
    }
    let area: u128 = patch_width as u128 * patch_height as u128;
    let mean: u128 = total / area;
    mean as u8
}

/// The glyph of the cell in column `col` of row `row` of the grid.
pub open spec fn glyph_at(image: &Image, config: &Config, col: int, row: int) -> char {
    let patch_width = patch_extent(image.spec_width(), config.target_width as int);
    let patch_height = patch_extent(image.spec_height(), config.target_height as int);
    let brightness = spec_patch_brightness(
        image,
        col * patch_width,
        row * patch_height,
        patch_width as nat,
        patch_height as nat,
    );
    config.palette@[config.curve.spec_index_for(brightness, config.palette@.len() as int)]
}

/// The line of glyphs for row `row` of the grid, from left to right.
pub open spec fn rendered_line(image: &Image, config: &Config, row: int) -> Seq<char> {
    Seq::new(
        patch_count(image.spec_width(), config.target_width as int) as nat,
        |col: int| glyph_at(image, config, col, row),
    )
}

/// The lines of glyphs for the whole grid, from top to bottom.
pub open spec fn rendered(image: &Image, config: &Config) -> Seq<Seq<char>> {
    Seq::new(
        patch_count(image.spec_height(), config.target_height as int) as nat,
        |row: int| rendered_line(image, config, row),
    )
}

/// What rendering comes to: the lines, or the reason why there are none.
/// A grid without cells is refused first, then a palette that is too short.
pub open spec fn spec_render(image: &Image, config: &Config) -> Result<Seq<Seq<char>>, RenderError> {
    if config.target_width == 0 || config.target_height == 0 {
        Err(RenderError::InvalidConfiguration)
    } else if !config.palette.usable() {
        Err(RenderError::EmptyPalette)
    } else {
        Ok(rendered(image, config))
    }
}

/// The characters of each of the lines.
pub open spec fn lines_of(lines: Seq<String>) -> Seq<Seq<char>> {
    Seq::new(lines.len(), |i: int| lines[i]@)
}

/// An outcome of `render` with each line taken as its characters.
pub open spec fn outcome_of(res: Result<Vec<String>, RenderError>) -> Result<
    Seq<Seq<char>>,
    RenderError,
> {
    match res {
        Ok(lines) => Ok(lines_of(lines@)),
        Err(e) => Err(e),
    }
}

/// The line of glyphs for row `row` of the grid.
pub fn render_line(image: &Image, config: &Config, grid: &Grid, row: u32) -> (line: String)
    requires
        image.wf(),
        config.target_width > 0,
        config.target_height > 0,
        config.palette.usable(),
        grid.fits(
            image.spec_width(),
            image.spec_height(),
            config.target_width as int,
            config.target_height as int,
        ),
        row < grid.num_rows,
    ensures
        line@ == rendered_line(image, config, row as int),
{
    let palette_len: usize = config.palette.len();
    let mut line: String = String::new();
    let mut col: u32 = 0;
    proof {
        lemma_patch_count_bounds(image.spec_width(), config.target_width as int);
        lemma_patch_count_bounds(image.spec_height(), config.target_height as int);
        assert((row + 1) * grid.patch_height <= grid.num_rows * grid.patch_height && 0 <= row
            * grid.patch_height) by (nonlinear_arith)
            requires
                0 <= row < grid.num_rows,
                0 < grid.patch_height,
        ;
        assert((row + 1) * grid.patch_height == row * grid.patch_height + grid.patch_height)
            by (nonlinear_arith);
    }
    let y0: u32 = row * grid.patch_height;
    while col < grid.num_cols
        invariant
            image.wf(),
            config.palette.usable(),
            palette_len == config.palette@.len(),
            grid.fits(
                image.spec_width(),
                image.spec_height(),
                config.target_width as int,
                config.target_height as int,
            ),
            grid.patch_width > 0,
            grid.patch_height > 0,
            grid.num_cols * grid.patch_width <= image.spec_width(),
            y0 == row * grid.patch_height,
            y0 + grid.patch_height <= image.spec_height(),
            col <= grid.num_cols,
            line@.len() == col,
            forall|c: int| 0 <= c < col ==> line@[c] == glyph_at(image, config, c, row as int),
        decreases grid.num_cols - col,
    {
        proof {
            assert((col + 1) * grid.patch_width <= grid.num_cols * grid.patch_width && 0 <= col
                * grid.patch_width) by (nonlinear_arith)
                requires
                    0 <= col < grid.num_cols,
                    0 < grid.patch_width,
            ;
            assert((col + 1) * grid.patch_width == col * grid.patch_width + grid.patch_width)
                by (nonlinear_arith);
        }
        let x0: u32 = col * grid.patch_width;
        let brightness: u8 = patch_brightness(image, x0, y0, grid.patch_width, grid.patch_height);
        let index: usize = config.curve.index_for(brightness, palette_len);
        line.push(config.palette.glyph(index));
        col += 1;
    }
    assert(line@ =~= rendered_line(image, config, row as int));
    line
}

/// Renders `image` as lines of glyphs, one line for each row of the grid
/// and one glyph for each of its cells.
pub fn render(image: &Image, config: &Config) -> (res: Result<Vec<String>, RenderError>)
    requires
        image.wf(),
    ensures
        outcome_of(res) == spec_render(image, config),
        (config.target_width == 0 || config.target_height == 0) <==> res == Err::<
            Vec<String>,
            RenderError,
        >(RenderError::InvalidConfiguration),
        (config.target_width > 0 && config.target_height > 0 && config.palette@.len() < 2) <==> res
            == Err::<Vec<String>, RenderError>(RenderError::EmptyPalette),
        res matches Ok(lines) ==> {
            &&& lines@.len() == patch_count(image.spec_height(), config.target_height as int)
            &&& forall|row: int|
                0 <= row < lines@.len() ==> (#[trigger] lines@[row])@.len() == patch_count(
                    image.spec_width(),
                    config.target_width as int,
                )
            &&& forall|row: int, col: int|
                0 <= row < lines@.len() && 0 <= col < lines@[row]@.len()
                    ==> config.palette@.contains(#[trigger] lines@[row]@[col])
            &&& forall|row: int, col: int|
                0 <= row < lines@.len() && 0 <= col < lines@[row]@.len()
                    ==> #[trigger] lines@[row]@[col] == glyph_at(image, config, col, row)
        },
{
    let grid: Grid = match Grid::layout(
        image.width(),
        image.height(),
        config.target_width,
        config.target_height,
    ) {
        Ok(grid) => grid,
        Err(e) => {
            return Err(e);
        },
    };
    if config.palette.len() < 2 {
        return Err(RenderError::EmptyPalette);
    }
    let mut lines: Vec<String> = Vec::new();
    let mut row: u32 = 0;
    while row < grid.num_rows
        invariant
            image.wf(),
            config.target_width > 0,
            config.target_height > 0,
            config.palette.usable(),
            grid.fits(
                image.spec_width(),
                image.spec_height(),
                config.target_width as int,
                config.target_height as int,
            ),
            row <= grid.num_rows,
            lines@.len() == row,
            forall|r: int| 0 <= r < row ==> (#[trigger] lines@[r])@ == rendered_line(image, config, r),
        decreases grid.num_rows - row,
    {
        let line: String = render_line(image, config, &grid, row);
        lines.push(line);
        row += 1;
    }
    proof {
        assert(lines_of(lines@) =~= rendered(image, config));
        lemma_rendered_in_palette(image, config);
    }
    Ok(lines)
}

/// Every glyph of a rendering is one of the palette's.
pub proof fn lemma_rendered_in_palette(image: &Image, config: &Config)
    requires
        config.palette@.len() > 0,
    ensures
        forall|row: int, col: int|
            0 <= row < rendered(image, config).len() && 0 <= col < rendered(image, config)[row].len()
                ==> config.palette@.contains(#[trigger] rendered(image, config)[row][col]),
        forall|col: int, row: int|
            config.palette@.contains(#[trigger] glyph_at(image, config, col, row)),
{
    assert forall|col: int, row: int|
        config.palette@.contains(#[trigger] glyph_at(image, config, col, row)) by {
        let patch_width = patch_extent(image.spec_width(), config.target_width as int);
        let patch_height = patch_extent(image.spec_height(), config.target_height as int);
        let brightness = spec_patch_brightness(
            image,
            col * patch_width,
            row * patch_height,
            patch_width as nat,
            patch_height as nat,
        );
        let index = config.curve.spec_index_for(brightness, config.palette@.len() as int);
        assert(0 <= index < config.palette@.len());
        assert(config.palette@[index] == glyph_at(image, config, col, row));
    }
}

/// A rendering has one line for each row of the grid and one glyph in each
/// line for each column. It has no more lines than the image has rows of
/// pixels, and no fewer than the request, limited to the image, asked for.
/// The same holds of the glyphs of a line and the columns of pixels.
pub proof fn lemma_rendered_dimensions(image: &Image, config: &Config)
    requires
        image.wf(),
        config.target_width > 0,
        config.target_height > 0,
    ensures
        rendered(image, config).len() == patch_count(
            image.spec_height(),
            config.target_height as int,
        ),
        forall|row: int|
            0 <= row < rendered(image, config).len() ==> (#[trigger] rendered(
                image,
                config,
            )[row]).len() == patch_count(image.spec_width(), config.target_width as int),
        grid_extent(image.spec_height(), config.target_height as int) <= patch_count(
            image.spec_height(),
            config.target_height as int,
        ) <= image.spec_height(),
        grid_extent(image.spec_width(), config.target_width as int) <= patch_count(
            image.spec_width(),
            config.target_width as int,
        ) <= image.spec_width(),
{
    lemma_patch_count_bounds(image.spec_width(), config.target_width as int);
    lemma_patch_count_bounds(image.spec_height(), config.target_height as int);
}

/// A rendering has no more lines than the request, limited to the image,
/// asked for, exactly where one more row of patches would not fit into the
/// image; and its lines have no more glyphs than were asked for, exactly
/// where one more column of patches would not fit.
pub proof fn lemma_rendered_within_request(image: &Image, config: &Config)
    requires
        image.wf(),
        config.target_width > 0,
        config.target_height > 0,
    ensures
        rendered(image, config).len() <= grid_extent(
            image.spec_height(),
            config.target_height as int,
        ) <==> image.spec_height() < (grid_extent(
            image.spec_height(),
            config.target_height as int,
        ) + 1) * patch_extent(image.spec_height(), config.target_height as int),
        (forall|row: int|
            0 <= row < rendered(image, config).len() ==> (#[trigger] rendered(
                image,
                config,
            )[row]).len() <= grid_extent(image.spec_width(), config.target_width as int))
            <==> image.spec_width() < (grid_extent(image.spec_width(), config.target_width as int)
            + 1) * patch_extent(image.spec_width(), config.target_width as int),
{
    lemma_rendered_dimensions(image, config);
    lemma_patch_count_within_request(image.spec_width(), config.target_width as int);
    lemma_patch_count_within_request(image.spec_height(), config.target_height as int);
    assert(rendered(image, config).len() >= 1);
    assert(rendered(image, config)[0].len() == patch_count(
        image.spec_width(),
        config.target_width as int,
    ));
}

/// Rendering is a function of the image and the configuration: any two
/// outcomes of rendering the same image with the same configuration agree,
/// in the error or in every character of every line.
pub proof fn lemma_render_deterministic(
    image: &Image,
    config: &Config,
    first: Result<Vec<String>, RenderError>,
    second: Result<Vec<String>, RenderError>,
)
    requires
        outcome_of(first) == spec_render(image, config),
        outcome_of(second) == spec_render(image, config),
    ensures
        outcome_of(first) == outcome_of(second),
        first is Err ==> first == second,
        first matches Ok(a) ==> second matches Ok(b) && a@.len() == b@.len() && forall|i: int|
            0 <= i < a@.len() ==> (#[trigger] a@[i])@ == b@[i]@,
{
    if let Ok(a) = first {
        let b = second->Ok_0;
        assert(lines_of(a@) == lines_of(b@));
        assert(lines_of(a@).len() == a@.len());
        assert(lines_of(b@).len() == b@.len());
        assert forall|i: int| 0 <= i < a@.len() implies (#[trigger] a@[i])@ == b@[i]@ by {
            assert(lines_of(a@)[i] == a@[i]@);
            assert(lines_of(b@)[i] == b@[i]@);
        }
    }
}

} // verus!
