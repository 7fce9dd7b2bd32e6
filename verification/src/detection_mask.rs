use vstd::prelude::*;

use crate::engines::DetectionMapError;

verus! {

/// A threshold decision map: for each cell of a `width` by `height` grid, stored row by row,
/// whether the detector's probability there reached the threshold. It holds no probabilities.
pub struct DetectionMask {
    width: usize,
    height: usize,
    active: Vec<bool>,
}

impl DetectionMask {
    #[verifier::type_invariant]
    spec fn covers_grid(self) -> bool {
        self.active@.len() == self.width * self.height
    }

    /// The width of the grid.
    pub closed spec fn spec_width(self) -> usize {
        self.width
    }

    /// The height of the grid.
    pub closed spec fn spec_height(self) -> usize {
        self.height
    }

    /// The decisions, row by row.
    pub closed spec fn decisions(self) -> Seq<bool> {
        self.active@
    }

    /// Takes the decisions of a `width` by `height` grid, row by row: at least one cell, and
    /// exactly one decision per cell.
    pub fn from_decisions(width: usize, height: usize, active: Vec<bool>) -> (r: Result<
        Self,
        DetectionMapError,
    >)
        ensures
            match r {
                Ok(mask) => {
                    &&& 0 < width * height <= usize::MAX
                    &&& active@.len() == width * height
                    &&& mask.spec_width() == width
                    &&& mask.spec_height() == height
                    &&& mask.decisions() == active@
                },
                Err(e) => {
                    ||| (e == DetectionMapError::InvalidDimensions && (width * height == 0 || width
                        * height > usize::MAX))
                    ||| (e == DetectionMapError::InvalidElementCount && 0 < width * height
                        <= usize::MAX && active@.len() != width * height)
                },
            },
    {
        let cells = match width.checked_mul(height) {
            Some(count) => count,
            None => return Err(DetectionMapError::InvalidDimensions),
        };
        if cells == 0 {
            return Err(DetectionMapError::InvalidDimensions);
        }
        if active.len() != cells {
            return Err(DetectionMapError::InvalidElementCount);
        }
        Ok(DetectionMask { width, height, active })
    }

    /// The width and the height of the grid.
    pub fn dimensions(&self) -> (d: [usize; 2])
        ensures
            d@ == seq![self.spec_width(), self.spec_height()],
    {
        [self.width, self.height]
    }

    /// The decision at column `x` of row `y`; none outside the grid.
    pub fn is_active(&self, x: usize, y: usize) -> (r: Option<bool>)
        ensures
            r == (if x < self.spec_width() && y < self.spec_height() {
                Some(self.decisions()[y * self.spec_width() + x])
            } else {
                None::<bool>
            }),
    {
        proof {
            use_type_invariant(self);
        }
        if x >= self.width || y >= self.height {
            return None;
        }
        proof {
            assert(self.active@.len() == self.active.len());
            assert(y * self.width + x < self.width * self.height) by (nonlinear_arith)
                requires
                    x < self.width,
                    y < self.height,
            ;
            assert(y * self.width <= y * self.width + x);
        }
        let row = y * self.width;
        Some(self.active[row + x])
    }
}

} // verus!
