use image_cropper::geometry::CropError;
use image_cropper::geometry::CropRectangle;
use image_cropper::geometry::DEFAULT_PADDING;
use image_cropper::geometry::Point;
use image_cropper::geometry::adjust_square_center;
use image_cropper::geometry::apply_padding;
use image_cropper::geometry::check_bounds;
use image_cropper::geometry::plan_crop;

fn rect(x: u32, y: u32, width: u32, height: u32) -> CropRectangle {
    CropRectangle { x, y, width, height }
}

#[test]
fn default_padding_is_ten() {
    assert_eq!(DEFAULT_PADDING, 10);
}

#[test]
fn from_corners_spans_the_box() {
    let r = CropRectangle::from_corners(Point { x: 20, y: 20 }, Point { x: 220, y: 120 });
    assert_eq!(r, Ok(rect(20, 20, 200, 100)));
}

#[test]
fn from_corners_rejects_reversed_x() {
    let r = CropRectangle::from_corners(Point { x: 50, y: 20 }, Point { x: 40, y: 120 });
    assert_eq!(r, Err(CropError::InvalidGeometry));
}

#[test]
fn from_corners_rejects_reversed_y() {
    let r = CropRectangle::from_corners(Point { x: 20, y: 120 }, Point { x: 220, y: 119 });
    assert_eq!(r, Err(CropError::InvalidGeometry));
}

#[test]
fn from_corners_accepts_equal_corners() {
    let p = Point { x: 7, y: 9 };
    assert_eq!(CropRectangle::from_corners(p, p), Ok(rect(7, 9, 0, 0)));
}

#[test]
fn adjust_widens_a_wide_rectangle_downward() {
    let r = adjust_square_center(rect(5, 90, 30, 10));
    assert_eq!(r, Ok(rect(5, 80, 30, 30)));
}

#[test]
fn adjust_widens_a_tall_rectangle_rightward() {
    let r = adjust_square_center(rect(50, 7, 10, 31));
    assert_eq!(r, Ok(rect(40, 7, 31, 31)));
}

#[test]
fn adjust_output_is_square() {
    let r = adjust_square_center(rect(12, 34, 56, 78)).unwrap();
    assert_eq!(r.width, r.height);
    assert_eq!(r.width, 78);
}

#[test]
fn adjust_preserves_center_for_even_difference() {
    let input = rect(100, 100, 20, 10);
    let out = adjust_square_center(input).unwrap();
    assert_eq!(out, rect(100, 95, 20, 20));
    assert_eq!(2 * out.y + out.height, 2 * input.y + input.height);
    assert_eq!(2 * out.x + out.width, 2 * input.x + input.width);
}

#[test]
fn adjust_rounds_an_odd_difference_toward_floor() {
    let input = rect(50, 7, 10, 31);
    let out = adjust_square_center(input).unwrap();
    // The doubled center moves by exactly one (half a pixel) on the shifted axis.
    assert_eq!(2 * out.x + out.width, 2 * input.x + input.width + 1);
    assert_eq!(2 * out.y + out.height, 2 * input.y + input.height);
}

#[test]
fn adjust_rejects_a_shift_past_the_image_edge() {
    let r = adjust_square_center(rect(100, 2, 100, 10));
    assert_eq!(r, Err(CropError::GeometryOutOfBounds));
}

#[test]
fn adjust_is_idempotent_on_a_square() {
    let square = rect(3, 4, 25, 25);
    let once = adjust_square_center(square).unwrap();
    assert_eq!(once, square);
    let twice = adjust_square_center(once).unwrap();
    assert_eq!(twice, once);
}

#[test]
fn padding_insets_each_side_by_exactly_p() {
    let detected = rect(20, 20, 200, 100);
    let padded = apply_padding(detected, 10).unwrap();
    assert_eq!(padded, rect(30, 30, 180, 80));
    assert_eq!(padded.x - detected.x, 10);
    assert_eq!(padded.y - detected.y, 10);
    assert_eq!((detected.x + detected.width) - (padded.x + padded.width), 10);
    assert_eq!((detected.y + detected.height) - (padded.y + padded.height), 10);
}

#[test]
fn padding_rejects_a_narrow_box() {
    let r = apply_padding(rect(0, 0, 20, 100), 10);
    assert_eq!(r, Err(CropError::DegenerateCrop));
}

#[test]
fn padding_rejects_a_short_box() {
    let r = apply_padding(rect(5, 5, 100, 19), 10);
    assert_eq!(r, Err(CropError::DegenerateCrop));
}

#[test]
fn padding_keeps_a_box_one_pixel_over_the_limit() {
    let r = apply_padding(rect(0, 0, 21, 21), 10).unwrap();
    assert_eq!(r, rect(10, 10, 1, 1));
}

#[test]
fn check_bounds_accepts_an_inner_rectangle() {
    assert_eq!(check_bounds(rect(10, 10, 90, 90), 100, 100), Ok(()));
}

#[test]
fn check_bounds_rejects_an_overhang() {
    assert_eq!(
        check_bounds(rect(10, 10, 91, 90), 100, 100),
        Err(CropError::GeometryOutOfBounds)
    );
    assert_eq!(
        check_bounds(rect(10, 10, 90, 91), 100, 100),
        Err(CropError::GeometryOutOfBounds)
    );
}

#[test]
fn plan_surfaces_a_recentering_underflow() {
    // Padded rectangle (30, 30, 180, 80): squaring needs y = 30 - 50, which
    // must surface as an error, not wrap around zero.
    let r = plan_crop(
        Point { x: 20, y: 20 },
        Point { x: 220, y: 120 },
        10,
        400,
        300,
    );
    assert_eq!(r, Err(CropError::GeometryOutOfBounds));
}

#[test]
fn plan_returns_an_already_square_padded_box_unchanged() {
    let r = plan_crop(
        Point { x: 100, y: 50 },
        Point { x: 300, y: 250 },
        10,
        400,
        300,
    );
    assert_eq!(r, Ok(rect(110, 60, 180, 180)));
}

#[test]
fn plan_rejects_reversed_corners() {
    let r = plan_crop(
        Point { x: 220, y: 20 },
        Point { x: 20, y: 120 },
        10,
        400,
        300,
    );
    assert_eq!(r, Err(CropError::InvalidGeometry));
}

#[test]
fn plan_rejects_a_small_detection() {
    let r = plan_crop(
        Point { x: 40, y: 40 },
        Point { x: 60, y: 200 },
        10,
        400,
        300,
    );
    assert_eq!(r, Err(CropError::DegenerateCrop));
}

#[test]
fn plan_rejects_a_square_leaving_the_image() {
    let r = plan_crop(
        Point { x: 100, y: 50 },
        Point { x: 300, y: 250 },
        10,
        250,
        250,
    );
    assert_eq!(r, Err(CropError::GeometryOutOfBounds));
}
