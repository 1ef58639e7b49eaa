use mappers::bounding_box::{BoundingBox, ParseBoundingBoxError};
use mappers::decimal::{parse_coordinate, parse_unsigned, ParseNumberError};
use mappers::geo_transform::{COORD_LIMIT, COORD_SCALE};

#[test]
fn bounding_box_parses() {
    assert_eq!(
        BoundingBox::from_str("-10,-5,10,5"),
        Ok(BoundingBox {
            min_x: -10 * COORD_SCALE,
            min_y: -5 * COORD_SCALE,
            max_x: 10 * COORD_SCALE,
            max_y: 5 * COORD_SCALE,
        })
    );
    assert_eq!("-10,-5,10,5".parse::<BoundingBox>(), BoundingBox::from_str("-10,-5,10,5"));
    assert_eq!(BoundingBox::from_bytes(b"-10,-5,10,5"), BoundingBox::from_str("-10,-5,10,5"));
}

#[test]
fn bounding_box_with_fractions() {
    assert_eq!(
        BoundingBox::from_str("8.5,47.25,+9.125,48.000000001"),
        Ok(BoundingBox {
            min_x: 8_500_000_000,
            min_y: 47_250_000_000,
            max_x: 9_125_000_000,
            max_y: 48_000_000_001,
        })
    );
}

#[test]
fn further_fields_are_ignored() {
    assert_eq!(
        BoundingBox::from_str("1,2,3,4,x,,"),
        Ok(BoundingBox { min_x: COORD_SCALE, min_y: 2 * COORD_SCALE, max_x: 3 * COORD_SCALE, max_y: 4 * COORD_SCALE })
    );
}

#[test]
fn fewer_than_four_fields_is_a_parse_error() {
    assert_eq!(BoundingBox::from_str(""), Err(ParseBoundingBoxError::MissingField));
    assert_eq!(BoundingBox::from_str("1"), Err(ParseBoundingBoxError::MissingField));
    assert_eq!(BoundingBox::from_str("1,2"), Err(ParseBoundingBoxError::MissingField));
    assert_eq!(BoundingBox::from_str("1,2,3"), Err(ParseBoundingBoxError::MissingField));
    assert_eq!(BoundingBox::from_str("x,y,z"), Err(ParseBoundingBoxError::MissingField));
    assert!("1,2,3".parse::<BoundingBox>().is_err());
}

#[test]
fn a_field_that_is_no_number_is_a_parse_error() {
    assert_eq!(BoundingBox::from_str("1,2,3,"), Err(ParseBoundingBoxError::InvalidNumber));
    assert_eq!(BoundingBox::from_str(",,,"), Err(ParseBoundingBoxError::InvalidNumber));
    assert_eq!(BoundingBox::from_str("1,2,x,4"), Err(ParseBoundingBoxError::InvalidNumber));
    assert_eq!(BoundingBox::from_str("1, 2,3,4"), Err(ParseBoundingBoxError::InvalidNumber));
    assert_eq!(BoundingBox::from_str("1,2,3,4e1"), Err(ParseBoundingBoxError::InvalidNumber));
}

#[test]
fn a_number_beyond_the_range_is_a_parse_error() {
    assert_eq!(BoundingBox::from_str("1,2,3,4000000001"), Err(ParseBoundingBoxError::OutOfRange));
    // The first failure wins.
    assert_eq!(BoundingBox::from_str("1,99999999999,x,4"), Err(ParseBoundingBoxError::OutOfRange));
    assert_eq!(BoundingBox::from_str("1,x,99999999999,4"), Err(ParseBoundingBoxError::InvalidNumber));
}

#[test]
fn the_default_is_the_whole_globe() {
    assert_eq!(BoundingBox::default(), BoundingBox::from_str("-180,-90,180,90").unwrap());
    let b = BoundingBox::default();
    assert_eq!(b.x(), (-180 * COORD_SCALE, 180 * COORD_SCALE));
    assert_eq!(b.y(), (-90 * COORD_SCALE, 90 * COORD_SCALE));
}

#[test]
fn coordinates_are_fixed_point() {
    assert_eq!(parse_coordinate(b"0"), Ok(0));
    assert_eq!(parse_coordinate(b"-0"), Ok(0));
    assert_eq!(parse_coordinate(b"1"), Ok(COORD_SCALE));
    assert_eq!(parse_coordinate(b"+1"), Ok(COORD_SCALE));
    assert_eq!(parse_coordinate(b"-1.5"), Ok(-1_500_000_000));
    assert_eq!(parse_coordinate(b"007.120"), Ok(7_120_000_000));
    assert_eq!(parse_coordinate(b"0.000000001"), Ok(1));
    assert_eq!(parse_coordinate(b"-0.123456789"), Ok(-123_456_789));
    // Digits after the ninth place are dropped.
    assert_eq!(parse_coordinate(b"0.0000000019"), Ok(1));
    assert_eq!(parse_coordinate(b"-0.9999999999999999999999"), Ok(-999_999_999));
    assert_eq!(parse_coordinate(b"4000000000"), Ok(COORD_LIMIT));
    assert_eq!(parse_coordinate(b"-4000000000.0000000009"), Ok(-COORD_LIMIT));
}

#[test]
fn coordinates_that_are_no_numbers() {
    for text in ["", "-", "+", ".", "1.", ".5", "-.5", "1e3", "abc", " 1", "1 ", "1..2", "1.2.3", "--1", "1.-2", "inf", "NaN"].iter() {
        assert_eq!(parse_coordinate(text.as_bytes()), Err(ParseNumberError::InvalidNumber), "{}", text);
    }
}

#[test]
fn coordinates_beyond_the_range() {
    assert_eq!(parse_coordinate(b"4000000000.000000001"), Err(ParseNumberError::OutOfRange));
    assert_eq!(parse_coordinate(b"-4000000001"), Err(ParseNumberError::OutOfRange));
    assert_eq!(parse_coordinate(b"99999999999999999999999999999999999999"), Err(ParseNumberError::OutOfRange));
    assert_eq!(parse_coordinate(b"99999999999999999999999999999999999999.5"), Err(ParseNumberError::OutOfRange));
    // The shape is judged before the size.
    assert_eq!(parse_coordinate(b"99999999999999999999999999999999999999."), Err(ParseNumberError::InvalidNumber));
}

#[test]
fn unsigned_numbers() {
    assert_eq!(parse_unsigned(b"0"), Ok(0));
    assert_eq!(parse_unsigned(b"256"), Ok(256));
    assert_eq!(parse_unsigned(b"+7"), Ok(7));
    assert_eq!(parse_unsigned(b"0042"), Ok(42));
    assert_eq!(parse_unsigned(b"4294967295"), Ok(u32::MAX));
    assert_eq!(parse_unsigned(b"4294967296"), Err(ParseNumberError::OutOfRange));
    assert_eq!(parse_unsigned(b"99999999999999999999999999"), Err(ParseNumberError::OutOfRange));
    for text in ["", "+", "-1", "1.0", "12a", " 1", "99999999999999999999999999x"].iter() {
        assert_eq!(parse_unsigned(text.as_bytes()), Err(ParseNumberError::InvalidNumber), "{}", text);
    }
}

#[test]
fn corners_may_be_written_out_of_order() {
    assert!(BoundingBox::default().is_ordered());
    assert!(BoundingBox::from_str("1,1,1,1").unwrap().is_ordered());
    assert!(!BoundingBox::from_str("10,-5,-10,5").unwrap().is_ordered());
    assert!(!BoundingBox::from_str("-10,5,10,-5").unwrap().is_ordered());
}
