//! Grid sizing: how many patches cover an image, and how large each one is.

use crate::error::RenderError;
use vstd::prelude::*;

verus! {

/// The requested number of cells along one axis, limited to the number of
/// pixels along that axis.
pub open spec fn grid_extent(image_dim: int, target: int) -> int {
    if target < image_dim {
        target
    } else {
        image_dim
    }
}

/// The number of pixels that one patch spans along one axis.
pub open spec fn patch_extent(image_dim: int, target: int) -> int
    recommends
        image_dim > 0,
        target > 0,
{
    image_dim / grid_extent(image_dim, target)
}

/// The number of whole patches that fit along one axis.
pub open spec fn patch_count(image_dim: int, target: int) -> int
    recommends
        image_dim > 0,
        target > 0,
{
    image_dim / patch_extent(image_dim, target)
}

/// Along one axis: a patch spans at least one pixel, the patches lie inside
/// the image, and there are at least as many of them as the limited request
/// asked for, and never more than there are pixels.
pub proof fn lemma_patch_count_bounds(image_dim: int, target: int)
    requires
        image_dim > 0,
        target > 0,
    ensures
        1 <= grid_extent(image_dim, target) <= image_dim,
        1 <= patch_extent(image_dim, target) <= image_dim,
        grid_extent(image_dim, target) <= patch_count(image_dim, target) <= image_dim,
        patch_count(image_dim, target) * patch_extent(image_dim, target) <= image_dim,
        image_dim < (patch_count(image_dim, target) + 1) * patch_extent(image_dim, target),
{
    let g = grid_extent(image_dim, target);
    let p = patch_extent(image_dim, target);
    let n = patch_count(image_dim, target);
    assert(1 <= p <= image_dim && p * g <= image_dim) by (nonlinear_arith)
        requires
            1 <= g <= image_dim,
            p == image_dim / g,
    ;
    assert(g <= n <= image_dim && n * p <= image_dim && image_dim < (n + 1) * p)
        by (nonlinear_arith)
        requires
            1 <= p <= image_dim,
            p * g <= image_dim,
            n == image_dim / p,
    ;
}

/// The number of patches along one axis stays within the limited request
/// exactly when one more column of patches would not fit into the image;
/// it then equals the limited request.
pub proof fn lemma_patch_count_within_request(image_dim: int, target: int)
    requires
        image_dim > 0,
        target > 0,
    ensures
        patch_count(image_dim, target) <= grid_extent(image_dim, target) <==> image_dim < (
        grid_extent(image_dim, target) + 1) * patch_extent(image_dim, target),
        patch_count(image_dim, target) <= grid_extent(image_dim, target) ==> patch_count(
            image_dim,
            target,
        ) == grid_extent(image_dim, target),
        image_dim % grid_extent(image_dim, target) == 0 ==> patch_count(image_dim, target)
            == grid_extent(image_dim, target),
{
    lemma_patch_count_bounds(image_dim, target);
    let g = grid_extent(image_dim, target);
    let p = patch_extent(image_dim, target);
    let n = patch_count(image_dim, target);
    assert(n <= g <==> image_dim < (g + 1) * p) by (nonlinear_arith)
        requires
            1 <= p,
            g <= n,
            n * p <= image_dim,
            image_dim < (n + 1) * p,
    ;
    assert(image_dim % g == 0 ==> image_dim < (g + 1) * p) by (nonlinear_arith)
        requires
            1 <= g,
            1 <= p,
            p == image_dim / g,
    ;
}

/// The patch grid laid over an image.
#[derive(Debug, Clone, Copy, PartialEq, Eq)]
pub struct Grid {
    /// Pixels per patch, horizontally.
    pub patch_width: u32,
    /// Pixels per patch, vertically.
    pub patch_height: u32,
    /// Patches per row of the grid.
    pub num_cols: u32,
    /// Rows of the grid.
    pub num_rows: u32,
}

impl Grid {
    /// Whether this is the grid that a request of `target_width` by
    /// `target_height` cells puts over an image of the given size.
    pub open spec fn fits(
        &self,
        image_width: int,
        image_height: int,
        target_width: int,
        target_height: int,
    ) -> bool {
        &&& self.patch_width == patch_extent(image_width, target_width)
        &&& self.patch_height == patch_extent(image_height, target_height)
        &&& self.num_cols == patch_count(image_width, target_width)
        &&& self.num_rows == patch_count(image_height, target_height)
    }

    /// Lays out the grid for an image of `image_width` by `image_height`
    /// pixels and a request of `target_width` by `target_height` cells.
    pub fn layout(image_width: u32, image_height: u32, target_width: u32, target_height: u32) -> (res:
        Result<Grid, RenderError>)
        requires
            image_width > 0,
            image_height > 0,
        ensures
            res is Err <==> (target_width == 0 || target_height == 0),
            res is Err ==> res == Err::<Grid, RenderError>(RenderError::InvalidConfiguration),
            res is Ok ==> res->Ok_0.fits(
                image_width as int,
                image_height as int,
                target_width as int,
                target_height as int,
            ),
    {
        if target_width == 0 || target_height == 0 {
            return Err(RenderError::InvalidConfiguration);
        }
        let (patch_width, num_cols) = axis_layout(image_width, target_width);
        let (patch_height, num_rows) = axis_layout(image_height, target_height);
        Ok(Grid { patch_width, patch_height, num_cols, num_rows })
    }
}

/// Patch size and patch count along one axis.
pub fn axis_layout(image_dim: u32, target: u32) -> (res: (u32, u32))
    requires
        image_dim > 0,
        target > 0,
    ensures
        res.0 == patch_extent(image_dim as int, target as int),
        res.1 == patch_count(image_dim as int, target as int),
{
    proof {
        lemma_patch_count_bounds(image_dim as int, target as int);
    }
    let cells: u32 = if target < image_dim {
        target
    } else {
        image_dim
    };
    let extent: u32 = image_dim / cells;
    let count: u32 = image_dim / extent;
    (extent, count)
}

} // verus!
