//! Rectangles in projection space, and the text form they are written in.
//!
//! A bounding box is written as four decimal numbers separated by commas:
//! `min_x,min_y,max_x,max_y`. A number is an optional sign, one or more
//! digits, and optionally a point followed by one or more digits. Further
//! fields after the fourth are ignored.

use vstd::prelude::*;
use vstd::slice::slice_subrange;
use vstd::string::StringSliceAdditionalSpecFns;
use std::str::FromStr;
use crate::decimal::{coordinate_of, parse_coordinate, ParseNumberError};
use crate::geo_transform::{coord_in_range, is_coord_in_range, COORD_SCALE};

verus! {

/// Why a text is not a bounding box.
#[derive(Debug, Clone, Copy, PartialEq, Eq, Structural)]
pub enum ParseBoundingBoxError {
    /// The text has fewer than four fields.
    MissingField,
    /// One of the first four fields is not a decimal number.
    InvalidNumber,
    /// One of the first four fields is a number beyond the coordinate range.
    OutOfRange,
}

/// A rectangle in projection space, in fixed-point coordinates.
///
/// `min_x <= max_x` and `min_y <= max_y` are expected of a box but not
/// enforced by the parser: a caller that needs them checks them.
#[derive(Debug, Clone, Copy, PartialEq, Eq, Structural)]
pub struct BoundingBox {
    pub min_x: i64,
    pub min_y: i64,
    pub max_x: i64,
    pub max_y: i64,
}

/// The index of the first `b` in `s` at or after `from`, or the length of
/// `s` where there is none.
pub open spec fn find_from(s: Seq<u8>, b: u8, from: int) -> int
    decreases s.len() - from,
{
    if from < 0 || from >= s.len() {
        s.len() as int
    } else if s[from] == b {
        from
    } else {
        find_from(s, b, from + 1)
    }
}

/// Where the comma-separated field number `k` of `s` starts. A value above
/// the length of `s` says that `s` has no such field.
pub open spec fn field_start(s: Seq<u8>, k: nat) -> int
    decreases k,
{
    if k == 0 {
        0
    } else {
        find_from(s, 0x2c, field_start(s, (k - 1) as nat)) + 1
    }
}

/// The comma-separated field number `k` of `s`, where `s` has one.
pub open spec fn field(s: Seq<u8>, k: nat) -> Seq<u8> {
    s.subrange(field_start(s, k), find_from(s, 0x2c, field_start(s, k)))
}

/// The failure of a bounding box for the failure of one of its numbers.
pub open spec fn field_error(e: ParseNumberError) -> ParseBoundingBoxError {
    match e {
        ParseNumberError::InvalidNumber => ParseBoundingBoxError::InvalidNumber,
        ParseNumberError::OutOfRange => ParseBoundingBoxError::OutOfRange,
    }
}

/// What a text parses to: the four fields in order, the first failure
/// winning.
pub open spec fn parsed(s: Seq<u8>) -> Result<BoundingBox, ParseBoundingBoxError> {
    if field_start(s, 3) > s.len() {
        Err(ParseBoundingBoxError::MissingField)
    } else {
        match coordinate_of(field(s, 0)) {
            Err(e) => Err(field_error(e)),
            Ok(min_x) => match coordinate_of(field(s, 1)) {
                Err(e) => Err(field_error(e)),
                Ok(min_y) => match coordinate_of(field(s, 2)) {
                    Err(e) => Err(field_error(e)),
                    Ok(max_x) => match coordinate_of(field(s, 3)) {
                        Err(e) => Err(field_error(e)),
                        Ok(max_y) => Ok(BoundingBox { min_x, min_y, max_x, max_y }),
                    },
                },
            },
        }
    }
}

/// The whole globe in geographic coordinates: `-180,-90,180,90`.
pub open spec fn whole_globe() -> BoundingBox {
    BoundingBox {
        min_x: (-180_000_000_000i64),
        min_y: (-90_000_000_000i64),
        max_x: 180_000_000_000,
        max_y: 90_000_000_000,
    }
}

impl BoundingBox {
    /// Every corner coordinate is within the coordinate range.
    pub open spec fn well_formed(&self) -> bool {
        &&& coord_in_range(self.min_x as int)
        &&& coord_in_range(self.min_y as int)
        &&& coord_in_range(self.max_x as int)
        &&& coord_in_range(self.max_y as int)
    }

    /// The corner `(min_x, min_y)` is not beyond the corner `(max_x, max_y)`
    /// along either axis.
    pub open spec fn ordered(&self) -> bool {
        self.min_x <= self.max_x && self.min_y <= self.max_y
    }

    /// Tests whether the corners are in order. The parser does not: a box
    /// may be written with its corners exchanged.
    pub fn is_ordered(&self) -> (r: bool)
        ensures
            r == self.ordered(),
    {
        self.min_x <= self.max_x && self.min_y <= self.max_y
    }

    /// Tests whether every corner coordinate is within the coordinate range.
    pub fn is_well_formed(&self) -> (r: bool)
        ensures
            r == self.well_formed(),
    {
        is_coord_in_range(self.min_x) && is_coord_in_range(self.min_y) && is_coord_in_range(
            self.max_x,
        ) && is_coord_in_range(self.max_y)
    }

    /// The extent along x: `(min_x, max_x)`.
    pub fn x(&self) -> (r: (i64, i64))
        ensures
            r == (self.min_x, self.max_x),
    {
        (self.min_x, self.max_x)
    }

    /// The extent along y: `(min_y, max_y)`.
    pub fn y(&self) -> (r: (i64, i64))
        ensures
            r == (self.min_y, self.max_y),
    {
        (self.min_y, self.max_y)
    }

    /// Parses the bytes of `min_x,min_y,max_x,max_y`.
    pub fn from_bytes(bytes: &[u8]) -> (r: Result<BoundingBox, ParseBoundingBoxError>)
        ensures
            r == parsed(bytes@),
            r matches Ok(b) ==> b.well_formed(),
    {
        proof {
            reveal_with_fuel(field_start, 4);
        }
        let len = bytes.len();
        let end0 = next_comma(bytes, 0);
        if end0 == len {
            return Err(ParseBoundingBoxError::MissingField);
        }
        let end1 = next_comma(bytes, end0 + 1);
        if end1 == len {
            return Err(ParseBoundingBoxError::MissingField);
        }
        let end2 = next_comma(bytes, end1 + 1);
        if end2 == len {
            return Err(ParseBoundingBoxError::MissingField);
        }
        let end3 = next_comma(bytes, end2 + 1);
        let min_x = match parse_coordinate(slice_subrange(bytes, 0, end0)) {
            Ok(v) => v,
            Err(e) => {
                return Err(field_failure(e));
            },
        };
        let min_y = match parse_coordinate(slice_subrange(bytes, end0 + 1, end1)) {
            Ok(v) => v,
            Err(e) => {
                return Err(field_failure(e));
            },
        };
        let max_x = match parse_coordinate(slice_subrange(bytes, end1 + 1, end2)) {
            Ok(v) => v,
            Err(e) => {
                return Err(field_failure(e));
            },
        };
        let max_y = match parse_coordinate(slice_subrange(bytes, end2 + 1, end3)) {
            Ok(v) => v,
            Err(e) => {
                return Err(field_failure(e));
            },
        };
        Ok(BoundingBox { min_x, min_y, max_x, max_y })
    }

    /// Parses `min_x,min_y,max_x,max_y`.
    pub fn from_str(text: &str) -> (r: Result<BoundingBox, ParseBoundingBoxError>)
        ensures
            r == parsed(text.spec_bytes()),
            r matches Ok(b) ==> b.well_formed(),
    {
        BoundingBox::from_bytes(text.as_bytes())
    }
}

impl Default for BoundingBox {
    /// The whole globe.
    fn default() -> (r: BoundingBox)
        ensures
            r == whole_globe(),
    {
        BoundingBox {
            min_x: -180 * COORD_SCALE,
            min_y: -90 * COORD_SCALE,
            max_x: 180 * COORD_SCALE,
            max_y: 90 * COORD_SCALE,
        }
    }
}

impl FromStr for BoundingBox {
    type Err = ParseBoundingBoxError;

    fn from_str(text: &str) -> (r: Result<BoundingBox, ParseBoundingBoxError>)
        ensures
            r == parsed(text.spec_bytes()),
    {
        BoundingBox::from_bytes(text.as_bytes())
    }
}

fn field_failure(e: ParseNumberError) -> (r: ParseBoundingBoxError)
    ensures
        r == field_error(e),
{
    match e {
        ParseNumberError::InvalidNumber => ParseBoundingBoxError::InvalidNumber,
        ParseNumberError::OutOfRange => ParseBoundingBoxError::OutOfRange,
    }
}

fn next_comma(bytes: &[u8], from: usize) -> (r: usize)
    requires
        from <= bytes@.len(),
    ensures
        r == find_from(bytes@, 0x2c, from as int),
        from <= r <= bytes@.len(),
{
    let mut i: usize = from;
    while i < bytes.len() && bytes[i] != 0x2c
        invariant
            from <= i <= bytes@.len(),
            find_from(bytes@, 0x2c, from as int) == find_from(bytes@, 0x2c, i as int),
        decreases bytes@.len() - i,
    {
        i = i + 1;
    }
    i
}

} // verus!
