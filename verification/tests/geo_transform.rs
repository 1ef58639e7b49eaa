use mappers::errors::ErrorKind;
use mappers::bounding_box::BoundingBox;
use mappers::geo_transform::{
    is_coord_in_range, projection_to_raster_space, raster_to_projection_space, GeoTransform,
    COORD_LIMIT, COORD_SCALE,
};

fn north_up() -> GeoTransform {
    // Origin at (-180, 90), pixels of half a unit, rows running south.
    GeoTransform {
        origin_x: -180 * COORD_SCALE,
        px_width: COORD_SCALE / 2,
        row_rot: 0,
        origin_y: 90 * COORD_SCALE,
        col_rot: 0,
        px_height: -COORD_SCALE / 2,
    }
}

fn rotated() -> GeoTransform {
    GeoTransform { origin_x: 100, px_width: 3, row_rot: -2, origin_y: -50, col_rot: 5, px_height: 7 }
}

#[test]
fn pixels_of_a_north_up_raster() {
    let gt = north_up();
    assert_eq!(projection_to_raster_space((-180 * COORD_SCALE, 90 * COORD_SCALE), &gt), Ok((0, 0)));
    assert_eq!(projection_to_raster_space((180 * COORD_SCALE, -90 * COORD_SCALE), &gt), Ok((720, 360)));
    assert_eq!(projection_to_raster_space((0, 0), &gt), Ok((360, 180)));
    // Positions inside a pixel round down to it.
    assert_eq!(projection_to_raster_space((COORD_SCALE / 4, -COORD_SCALE / 4), &gt), Ok((360, 180)));
    assert_eq!(projection_to_raster_space((COORD_SCALE - 1, -COORD_SCALE + 1), &gt), Ok((361, 181)));
}

#[test]
fn positions_before_the_origin_saturate_to_zero() {
    let gt = north_up();
    assert_eq!(projection_to_raster_space((-181 * COORD_SCALE, 91 * COORD_SCALE), &gt), Ok((0, 0)));
    assert_eq!(projection_to_raster_space((-181 * COORD_SCALE, 0), &gt), Ok((0, 180)));
}

#[test]
fn a_singular_transform_is_rejected() {
    let flat = GeoTransform { origin_x: 0, px_width: 2, row_rot: 4, origin_y: 0, col_rot: 1, px_height: 2 };
    assert_eq!(projection_to_raster_space((5, 7), &flat), Err(ErrorKind::DegenerateTransform));
    let zero = GeoTransform { origin_x: 0, px_width: 0, row_rot: 0, origin_y: 0, col_rot: 0, px_height: 0 };
    assert_eq!(projection_to_raster_space((0, 0), &zero), Err(ErrorKind::DegenerateTransform));
    let one_axis = GeoTransform { origin_x: 0, px_width: 1, row_rot: 0, origin_y: 0, col_rot: 0, px_height: 0 };
    assert_eq!(projection_to_raster_space((3, 3), &one_axis), Err(ErrorKind::DegenerateTransform));
}

#[test]
fn affine_evaluation_is_exact() {
    assert_eq!(raster_to_projection_space((0, 0), &rotated()), (100, -50));
    assert_eq!(raster_to_projection_space((4, 6), &rotated()), (100 + 12 - 12, -50 + 20 + 42));
    assert_eq!(
        raster_to_projection_space((720, 360), &north_up()),
        (180 * COORD_SCALE as i128, -90 * COORD_SCALE as i128)
    );
}

#[test]
fn pixel_to_projection_and_back_is_the_identity() {
    for gt in [north_up(), rotated()].iter() {
        for pixel in [(0usize, 0usize), (1, 0), (0, 1), (17, 4), (1000, 2000)].iter() {
            let (x, y) = raster_to_projection_space(*pixel, gt);
            let corner = (x as i64, y as i64);
            assert_eq!(projection_to_raster_space(corner, gt), Ok(*pixel));
        }
    }
}

#[test]
fn the_pixel_found_holds_the_coordinate() {
    let gt = rotated();
    for coordinate in [(100i64, -50i64), (137, 12), (1000, 4000), (250, 999)].iter() {
        let pixel = projection_to_raster_space(*coordinate, &gt).unwrap();
        let (x, y) = raster_to_projection_space(pixel, &gt);
        assert!((coordinate.0 as i128 - x).abs() < 3 + 2);
        assert!((coordinate.1 as i128 - y).abs() < 5 + 7);
    }
}

#[test]
fn the_whole_coordinate_range_is_computed_without_overflow() {
    let gt = GeoTransform {
        origin_x: -COORD_LIMIT,
        px_width: COORD_LIMIT,
        row_rot: -COORD_LIMIT,
        origin_y: COORD_LIMIT,
        col_rot: COORD_LIMIT,
        px_height: COORD_LIMIT,
    };
    assert_eq!(projection_to_raster_space((COORD_LIMIT, -COORD_LIMIT), &gt), Ok((0, 0)));
    assert_eq!(projection_to_raster_space((COORD_LIMIT, COORD_LIMIT), &gt), Ok((1, 0)));
    let unit = GeoTransform { origin_x: -COORD_LIMIT, px_width: 1, row_rot: 0, origin_y: -COORD_LIMIT, col_rot: 0, px_height: 1 };
    assert_eq!(
        projection_to_raster_space((COORD_LIMIT, COORD_LIMIT), &unit),
        Ok((8_000_000_000_000_000_000, 8_000_000_000_000_000_000))
    );
    let far = raster_to_projection_space((usize::MAX, usize::MAX), &gt);
    assert_eq!(far.0, -(COORD_LIMIT as i128));
    assert_eq!(far.1, COORD_LIMIT as i128 + 2 * (usize::MAX as i128) * COORD_LIMIT as i128);
}

#[test]
fn the_coordinate_range_is_tested() {
    assert!(is_coord_in_range(0));
    assert!(is_coord_in_range(COORD_LIMIT));
    assert!(is_coord_in_range(-COORD_LIMIT));
    assert!(!is_coord_in_range(COORD_LIMIT + 1));
    assert!(!is_coord_in_range(-COORD_LIMIT - 1));
    assert!(!is_coord_in_range(i64::MIN));
    assert!(north_up().is_well_formed());
    for field in 0..6 {
        let mut gt = rotated();
        match field {
            0 => gt.origin_x = COORD_LIMIT + 1,
            1 => gt.px_width = -COORD_LIMIT - 1,
            2 => gt.row_rot = i64::MAX,
            3 => gt.origin_y = i64::MIN,
            4 => gt.col_rot = COORD_LIMIT + 1,
            _ => gt.px_height = COORD_LIMIT + 1,
        }
        assert!(!gt.is_well_formed());
    }
    assert!(BoundingBox::default().is_well_formed());
    for field in 0..4 {
        let mut bbox = BoundingBox::default();
        match field {
            0 => bbox.min_x = -COORD_LIMIT - 1,
            1 => bbox.min_y = COORD_LIMIT + 1,
            2 => bbox.max_x = i64::MAX,
            _ => bbox.max_y = i64::MIN,
        }
        assert!(!bbox.is_well_formed());
    }
}
