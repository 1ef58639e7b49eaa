//! What a raster query asks for.

use vstd::prelude::*;
use crate::bounding_box::BoundingBox;
use crate::calendar::Timestamp;

verus! {

/// chrono's span of time, `chrono::TimeDelta`. Nothing is claimed of what a
/// value of it holds.
#[verifier::external_type_specification]
#[verifier::external_body]
pub struct ExTimeDelta(chrono::TimeDelta);

/// A request for data.
pub trait Query {

}

/// A query that fixes the size of its answer in pixels.
pub trait Rasterized: Query {
    /// Columns and rows of the answer.
    spec fn resolution_of(&self) -> (u32, u32);

    fn resolution(&self) -> (r: (u32, u32))
        ensures
            r == self.resolution_of(),
    ;
}

/// A query that is limited to a rectangle.
pub trait Spatial: Query {
    /// The rectangle asked for.
    spec fn bbox_of(&self) -> BoundingBox;

    fn bbox(&self) -> (r: &BoundingBox)
        ensures
            *r == self.bbox_of(),
    ;
}

/// A query that is placed in time.
pub trait Temporal: Query {
    type DateType;

    type DurationType;

    /// The instant asked for.
    spec fn start_of(&self) -> Self::DateType;

    fn start(&self) -> (r: &Self::DateType)
        ensures
            *r == self.start_of(),
    ;

    /// How long the query extends from its start; `None` for an instant,
    /// which is what a query is unless it says otherwise.
    fn duration(&self) -> (r: Option<&Self::DurationType>)
        default_ensures
            r is None,
    {
        None
    }
}

/// A complete request: an instant, a rectangle and the size of the answer.
#[derive(Debug)]
pub struct SpatioTemporalRasterQuery<T> {
    pub start_time: T,
    pub bbox: BoundingBox,
    pub pixel_size: (u32, u32),
}

impl<T: Clone> Clone for SpatioTemporalRasterQuery<T> {
    fn clone(&self) -> (r: Self)
        ensures
            cloned(self.start_time, r.start_time),
            r.bbox == self.bbox,
            r.pixel_size == self.pixel_size,
    {
        SpatioTemporalRasterQuery {
            start_time: self.start_time.clone(),
            bbox: self.bbox,
            pixel_size: self.pixel_size,
        }
    }
}

impl<T> Query for SpatioTemporalRasterQuery<T> {

}

impl<T> Temporal for SpatioTemporalRasterQuery<T> {
    type DateType = T;

    type DurationType = chrono::TimeDelta;

    open spec fn start_of(&self) -> T {
        self.start_time
    }

    fn start(&self) -> (r: &T) {
        &self.start_time
    }
}

impl<T> Spatial for SpatioTemporalRasterQuery<T> {
    open spec fn bbox_of(&self) -> BoundingBox {
        self.bbox
    }

    fn bbox(&self) -> (r: &BoundingBox) {
        &self.bbox
    }
}

impl<T> Rasterized for SpatioTemporalRasterQuery<T> {
    open spec fn resolution_of(&self) -> (u32, u32) {
        self.pixel_size
    }

    fn resolution(&self) -> (r: (u32, u32)) {
        self.pixel_size
    }
}

} // verus!
