//! Crop rectangles and the padding / square-adjustment transformations.

use vstd::prelude::*;

verus! {

/// A pixel position, origin at the image's top-left corner.
#[derive(Clone, Copy, Debug, PartialEq, Eq, Structural)]
pub struct Point {
    pub x: u32,
    pub y: u32,
}

/// An axis-aligned rectangle in unsigned pixel coordinates:
/// origin at the top-left, extending `width` to the right and
/// `height` downward.
#[derive(Clone, Copy, Debug, PartialEq, Eq, Structural)]
pub struct CropRectangle {
    pub x: u32,
    pub y: u32,
    pub width: u32,
    pub height: u32,
}

/// Everything that can go wrong while planning or applying one image's crop.
#[derive(Clone, Copy, Debug, PartialEq, Eq, Structural)]
pub enum CropError {
    /// The detector returned corners with `bottom_right` left of or above `top_left`.
    InvalidGeometry,
    /// The padded region has non-positive width or height.
    DegenerateCrop,
    /// The final rectangle leaves the image, or re-centering would need a
    /// negative coordinate.
    GeometryOutOfBounds,
    /// The input file is missing, unreadable, or not a decodable image.
    ImageReadError,
    /// The detector found no content in the image.
    DetectionError,
    /// The output file could not be encoded or written.
    ImageWriteError,
}

/// The fixed margin, in pixels, kept around the detected content by default.
pub const DEFAULT_PADDING: u32 = 10;

/// The detector's corners describe a rectangle only when `bottom_right`
/// is neither left of nor above `top_left`.
pub open spec fn corners_ordered(top_left: Point, bottom_right: Point) -> bool {
    top_left.x <= bottom_right.x && top_left.y <= bottom_right.y
}

/// The rectangle spanned by two ordered corners.
pub open spec fn rect_of_corners(top_left: Point, bottom_right: Point) -> CropRectangle
    recommends
        corners_ordered(top_left, bottom_right),
{
    CropRectangle {
        x: top_left.x,
        y: top_left.y,
        width: (bottom_right.x - top_left.x) as u32,
        height: (bottom_right.y - top_left.y) as u32,
    }
}

/// The side of the smallest enclosing square: the larger of the two dimensions.
pub open spec fn square_side(c: CropRectangle) -> int {
    if c.width > c.height {
        c.width as int
    } else {
        c.height as int
    }
}

/// Re-centering the square shifts the origin along the shorter axis by half
/// the dimension difference; that shift must not push the origin below zero.
pub open spec fn shift_fits(c: CropRectangle) -> bool {
    if c.width > c.height {
        c.y >= (c.width - c.height) / 2
    } else {
        c.x >= (c.height - c.width) / 2
    }
}

/// The smallest enclosing square with side `square_side(c)`, centered on
/// `c`'s center and shifted only along the shorter axis. The half-difference
/// shift rounds toward zero, so for an odd dimension difference the square
/// sits one half pixel toward the floor direction.
pub open spec fn square_of(c: CropRectangle) -> CropRectangle
    recommends
        shift_fits(c),
{
    if c.width > c.height {
        CropRectangle {
            x: c.x,
            y: (c.y - (c.width - c.height) / 2) as u32,
            width: c.width,
            height: c.width,
        }
    } else {
        CropRectangle {
            x: (c.x - (c.height - c.width) / 2) as u32,
            y: c.y,
            width: c.height,
            height: c.height,
        }
    }
}

/// Transforms a rectangle into the smallest enclosing square centered on the
/// same point, rejecting inputs whose re-centering shift would need a
/// negative origin coordinate instead of wrapping around zero.
pub fn adjust_square_center(crop: CropRectangle) -> (r: Result<CropRectangle, CropError>)
    ensures
        r is Ok <==> shift_fits(crop),
        r matches Ok(sq) ==> sq == square_of(crop),
        r matches Err(e) ==> e == CropError::GeometryOutOfBounds,
{
    if crop.width > crop.height {
        let diff = crop.width - crop.height;
        if crop.y < diff / 2 {
            return Err(CropError::GeometryOutOfBounds);
        }
        Ok(CropRectangle {
            x: crop.x,
            y: crop.y - diff / 2,
            width: crop.width,
            height: crop.width,
        })
    } else {
        let diff = crop.height - crop.width;
        if crop.x < diff / 2 {
            return Err(CropError::GeometryOutOfBounds);
        }
        Ok(CropRectangle {
            x: crop.x - diff / 2,
            y: crop.y,
            width: crop.height,
            height: crop.height,
        })
    }
}

impl CropRectangle {
    /// Builds the rectangle spanned by the detector's two corners, rejecting
    /// an invalid corner ordering instead of wrapping around zero.
    pub fn from_corners(top_left: Point, bottom_right: Point) -> (r: Result<CropRectangle, CropError>)
        ensures
            r is Ok <==> corners_ordered(top_left, bottom_right),
            r matches Ok(c) ==> c == rect_of_corners(top_left, bottom_right),
            r matches Err(e) ==> e == CropError::InvalidGeometry,
    {
        if bottom_right.x < top_left.x || bottom_right.y < top_left.y {
            Err(CropError::InvalidGeometry)
        } else {
            Ok(CropRectangle {
                x: top_left.x,
                y: top_left.y,
                width: bottom_right.x - top_left.x,
                height: bottom_right.y - top_left.y,
            })
        }
    }
}

/// The square adjustment always yields a square whose side is the larger of
/// the input's two dimensions, and it never shrinks either dimension.
pub proof fn lemma_square_invariant(c: CropRectangle)
    ensures
        square_of(c).width == square_of(c).height,
        square_of(c).width == square_side(c),
        square_of(c).width >= c.width,
        square_of(c).height >= c.height,
{
}

/// Center preservation, parity-aware. Doubling every coordinate makes pixel
/// centers exact integers: a rectangle's doubled center is
/// `(2x + width, 2y + height)`. For an even dimension difference the square's
/// center equals the input's center exactly; for an odd difference the center
/// moves by exactly half a pixel along the shorter axis, always toward the
/// floor direction, and the other axis is unchanged.
pub proof fn lemma_center_preservation(c: CropRectangle)
    requires
        shift_fits(c),
    ensures
        ({
            let sq = square_of(c);
            let even = (c.width + c.height) % 2 == 0;
            &&& even ==> 2 * sq.x + sq.width == 2 * c.x + c.width
            &&& even ==> 2 * sq.y + sq.height == 2 * c.y + c.height
            &&& !even && c.width > c.height ==> 2 * sq.x + sq.width == 2 * c.x + c.width
                && 2 * sq.y + sq.height == 2 * c.y + c.height + 1
            &&& !even && c.width <= c.height ==> 2 * sq.y + sq.height == 2 * c.y + c.height
                && 2 * sq.x + sq.width == 2 * c.x + c.width + 1
        }),
{
    if c.width > c.height {
        let diff = c.width - c.height;
        assert(2 * ((diff as int) / 2) == diff - (diff as int) % 2);
    } else {
        let diff = c.height - c.width;
        assert(2 * ((diff as int) / 2) == diff - (diff as int) % 2);
    }
}

/// The square adjustment is idempotent: an already-square rectangle is a
/// fixed point, so running the adjustment twice returns the first result
/// unchanged.
pub proof fn lemma_square_adjust_idempotent(c: CropRectangle)
    requires
        shift_fits(c),
    ensures
        shift_fits(square_of(c)),
        square_of(square_of(c)) == square_of(c),
        c.width == c.height ==> square_of(c) == c,
{
}

/// A margin of `padding` pixels fits on all four sides only when both
/// dimensions strictly exceed twice the padding.
pub open spec fn pad_fits(c: CropRectangle, padding: u32) -> bool {
    c.width > 2 * padding && c.height > 2 * padding
}

/// The rectangle inset by exactly `padding` pixels on all four sides.
pub open spec fn padded_rect(c: CropRectangle, padding: u32) -> CropRectangle
    recommends
        pad_fits(c, padding),
        c.x + c.width <= u32::MAX,
        c.y + c.height <= u32::MAX,
{
    CropRectangle {
        x: (c.x + padding) as u32,
        y: (c.y + padding) as u32,
        width: (c.width - 2 * padding) as u32,
        height: (c.height - 2 * padding) as u32,
    }
}

/// Insets the rectangle by `padding` pixels on all four sides, rejecting a
/// region too small to keep a strictly positive width and height.
pub fn apply_padding(c: CropRectangle, padding: u32) -> (r: Result<CropRectangle, CropError>)
    requires
        c.x + c.width <= u32::MAX,
        c.y + c.height <= u32::MAX,
    ensures
        r is Ok <==> pad_fits(c, padding),
        r matches Ok(p) ==> p == padded_rect(c, padding),
        r matches Ok(p) ==> p.width > 0 && p.height > 0,
        r matches Err(e) ==> e == CropError::DegenerateCrop,
{
    if (c.width as u64) > 2 * (padding as u64) && (c.height as u64) > 2 * (padding as u64) {
        Ok(CropRectangle {
            x: c.x + padding,
            y: c.y + padding,
            width: c.width - 2 * padding,
            height: c.height - 2 * padding,
        })
    } else {
        Err(CropError::DegenerateCrop)
    }
}

/// Padding containment: whenever the margin fits, the padded rectangle lies
/// inside the detected box, inset by exactly `padding` on all four sides,
/// and strictly inside it for a positive padding.
pub proof fn lemma_padding_containment(c: CropRectangle, padding: u32)
    requires
        pad_fits(c, padding),
        c.x + c.width <= u32::MAX,
        c.y + c.height <= u32::MAX,
    ensures
        ({
            let p = padded_rect(c, padding);
            &&& p.x - c.x == padding
            &&& p.y - c.y == padding
            &&& (c.x + c.width) - (p.x + p.width) == padding
            &&& (c.y + c.height) - (p.y + p.height) == padding
            &&& padding > 0 ==> c.x < p.x && p.x + p.width < c.x + c.width
                && c.y < p.y && p.y + p.height < c.y + c.height
        }),
{
}

/// The rectangle stays inside an image of the given dimensions.
pub open spec fn within_bounds(c: CropRectangle, image_width: u32, image_height: u32) -> bool {
    c.x + c.width <= image_width && c.y + c.height <= image_height
}

/// Checks the final rectangle against the source image's actual dimensions.
pub fn check_bounds(c: CropRectangle, image_width: u32, image_height: u32) -> (r: Result<(), CropError>)
    ensures
        r is Ok <==> within_bounds(c, image_width, image_height),
        r matches Err(e) ==> e == CropError::GeometryOutOfBounds,
{
    if c.x <= image_width && c.width <= image_width - c.x && c.y <= image_height
        && c.height <= image_height - c.y {
        Ok(())
    } else {
        Err(CropError::GeometryOutOfBounds)
    }
}

/// What planning one image's crop returns, step by step: corner validation,
/// padding, square adjustment, and the final bound check, with the first
/// failing step's error.
pub open spec fn plan_spec(
    top_left: Point,
    bottom_right: Point,
    padding: u32,
    image_width: u32,
    image_height: u32,
) -> Result<CropRectangle, CropError> {
    if !corners_ordered(top_left, bottom_right) {
        Err(CropError::InvalidGeometry)
    } else {
        let raw = rect_of_corners(top_left, bottom_right);
        if !pad_fits(raw, padding) {
            Err(CropError::DegenerateCrop)
        } else {
            let padded = padded_rect(raw, padding);
            if !shift_fits(padded) {
                Err(CropError::GeometryOutOfBounds)
            } else {
                let sq = square_of(padded);
                if !within_bounds(sq, image_width, image_height) {
                    Err(CropError::GeometryOutOfBounds)
                } else {
                    Ok(sq)
                }
            }
        }
    }
}

/// Produces the final crop rectangle for one image from the detector's raw
/// bounding box: pad inward first, so the visual margin is uniform, then
/// adjust to a square, then check against the image's dimensions.
pub fn plan_crop(
    top_left: Point,
    bottom_right: Point,
    padding: u32,
    image_width: u32,
    image_height: u32,
) -> (r: Result<CropRectangle, CropError>)
    ensures
        r == plan_spec(top_left, bottom_right, padding, image_width, image_height),
        r matches Ok(c) ==> c.width == c.height && c.width > 0
            && within_bounds(c, image_width, image_height),
{
    let raw = match CropRectangle::from_corners(top_left, bottom_right) {
        Ok(raw) => raw,
        Err(e) => {
            return Err(e);
        },
    };
    let padded = match apply_padding(raw, padding) {
        Ok(padded) => padded,
        Err(e) => {
            return Err(e);
        },
    };
    let sq = match adjust_square_center(padded) {
        Ok(sq) => sq,
        Err(e) => {
            return Err(e);
        },
    };
    match check_bounds(sq, image_width, image_height) {
        Ok(()) => Ok(sq),
        Err(e) => Err(e),
    }
}

} // verus!
