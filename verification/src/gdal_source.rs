//! A raster source: which file answers a query, and which window of its
//! pixels is to be read.

use vstd::prelude::*;
use vstd::string::{StrSliceExecFns, StringExecFns};
use crate::calendar::{strftime, Timestamp};
use crate::errors::ErrorKind;
use crate::geo_transform::{pixel_index, GeoTransform};
pub use crate::bounding_box::BoundingBox;
pub use crate::geo_transform::{projection_to_raster_space, raster_to_projection_space};
pub use crate::query::{Query, Rasterized, Spatial, SpatioTemporalRasterQuery, Temporal};
pub use crate::tick::Tick;

verus! {

/// How the raster file of a layer is found.
///
/// With a tick, the file name is the start time of the query, snapped by
/// the tick and written through `file_name_format`. Without one, it is
/// `dataset_name` as it stands.
#[derive(Debug)]
pub struct SourceParams {
    pub dataset_name: String,
    pub file_name_format: String,
    pub tick: Option<Tick>,
}

/// A window of the pixels of a raster file.
#[derive(Debug, Clone, Copy, PartialEq, Eq, Structural)]
pub struct PixelWindow {
    /// Column of the first pixel.
    pub column: isize,
    /// Row of the first pixel.
    pub row: isize,
    /// Number of columns.
    pub width: usize,
    /// Number of rows.
    pub height: usize,
}

/// What is to be read from a raster file: a window of its pixels, and the
/// size that the window is resampled to.
#[derive(Debug, Clone, Copy, PartialEq, Eq, Structural)]
pub struct ReadRequest {
    pub window: PixelWindow,
    /// Columns of the resampled window.
    pub out_width: usize,
    /// Rows of the resampled window.
    pub out_height: usize,
}

/// What the reader of raster files reports to [`GdalSource::pull`].
#[derive(Debug, PartialEq, Eq)]
pub enum PullEvent {
    /// Nothing was done yet.
    Begin,
    /// The file was opened, and carries this geo transform.
    Opened { geo_transform: GeoTransform },
    /// The window was read from the first band, in row-major order.
    Read { samples: Vec<i64> },
    /// The step that was asked for failed.
    Failed { kind: ErrorKind },
}

/// What [`GdalSource::pull`] asks the reader of raster files to do next.
#[derive(Debug, PartialEq, Eq)]
pub enum PullAction {
    /// Open the raster file at `path` and report its geo transform.
    Open { path: String },
    /// Read the window of the first band and resample it.
    Read { request: ReadRequest },
    /// The query is answered with these samples.
    Return { samples: Vec<i64> },
    /// The query has failed, and nothing is returned for it.
    Fail { kind: ErrorKind },
}

/// `name` under the directory `base`: `name` itself where it starts at the
/// root, else `base` and `name` with one separator between them where
/// `base` does not bring its own.
pub open spec fn joined(base: Seq<char>, name: Seq<char>) -> Seq<char> {
    if name.len() > 0 && name[0] == '/' {
        name
    } else if base.len() > 0 && base.last() != '/' {
        base + seq!['/'] + name
    } else {
        base + name
    }
}

/// The path of `name` under the directory `base`.
pub fn join_path(base: &str, name: &str) -> (r: String)
    ensures
        r@ == joined(base@, name@),
{
    if name.unicode_len() > 0 && name.get_char(0) == '/' {
        return String::from_str(name);
    }
    let mut path = String::from_str(base);
    let len = base.unicode_len();
    if len > 0 && base.get_char(len - 1) != '/' {
        proof {
            reveal_strlit("/");
        }
        path.append("/");
    }
    path.append(name);
    path
}

/// Turns the outcome of rendering a file name into the path of the file.
pub fn locate(base_path: &str, rendered: Option<String>) -> (r: Result<String, ErrorKind>)
    ensures
        r is Ok <==> rendered is Some,
        r matches Ok(path) ==> rendered matches Some(name) && path@ == joined(base_path@, name@),
        r matches Err(e) ==> e == ErrorKind::ConfigurationError,
{
    match rendered {
        Some(name) => Ok(join_path(base_path, name.as_str())),
        None => Err(ErrorKind::ConfigurationError),
    }
}

impl SourceParams {
    /// The name that the file for `start` is rendered to; `None` where the
    /// tick or the pattern is at fault.
    pub open spec fn file_name(&self, start: Timestamp) -> Option<Seq<char>> {
        match self.tick {
            None => Some(self.dataset_name@),
            Some(tick) => match tick.snapped_datetime(start.date@, start.time@) {
                None => None,
                Some((date, time)) => strftime(
                    date.0,
                    date.1,
                    date.2,
                    time.0,
                    time.1,
                    time.2,
                    self.file_name_format@,
                ),
            },
        }
    }
}

/// The window between two pixel corners: it starts at `min` and extends to
/// `max`. `None` where `max` lies before `min` along an axis, or `min` is
/// beyond the largest offset.
pub open spec fn window_between(min: (usize, usize), max: (usize, usize)) -> Option<PixelWindow> {
    if min.0 <= max.0 && min.1 <= max.1 && min.0 <= isize::MAX && min.1 <= isize::MAX {
        Some(
            PixelWindow {
                column: min.0 as isize,
                row: min.1 as isize,
                width: (max.0 - min.0) as usize,
                height: (max.1 - min.1) as usize,
            },
        )
    } else {
        None
    }
}

/// The pixel window that `bbox` covers under `geo_transform`, from the pixel
/// of its corner `(min_x, min_y)` to the pixel of its corner
/// `(max_x, max_y)`.
pub open spec fn window_of(bbox: BoundingBox, geo_transform: GeoTransform) -> Result<
    PixelWindow,
    ErrorKind,
> {
    let det = geo_transform.determinant();
    let min = (
        pixel_index(geo_transform.column_numerator((bbox.min_x, bbox.min_y)), det) as usize,
        pixel_index(geo_transform.row_numerator((bbox.min_x, bbox.min_y)), det) as usize,
    );
    let max = (
        pixel_index(geo_transform.column_numerator((bbox.max_x, bbox.max_y)), det) as usize,
        pixel_index(geo_transform.row_numerator((bbox.max_x, bbox.max_y)), det) as usize,
    );
    if !bbox.well_formed() || !geo_transform.well_formed() {
        Err(ErrorKind::InvalidWindow)
    } else if !geo_transform.invertible() {
        Err(ErrorKind::DegenerateTransform)
    } else {
        match window_between(min, max) {
            Some(window) => Ok(window),
            None => Err(ErrorKind::InvalidWindow),
        }
    }
}

/// Converts a bounding box to the pixel window it covers.
///
/// Fails with `InvalidWindow` where a coordinate or coefficient is beyond
/// the coordinate range, with `DegenerateTransform` where the transform is
/// singular, and with `InvalidWindow` where the corners do not span a
/// window.
pub fn pixel_window(bbox: &BoundingBox, geo_transform: &GeoTransform) -> (r: Result<
    PixelWindow,
    ErrorKind,
>)
    ensures
        r == window_of(*bbox, *geo_transform),
{
    if !bbox.is_well_formed() || !geo_transform.is_well_formed() {
        return Err(ErrorKind::InvalidWindow);
    }
    let min = match projection_to_raster_space((bbox.min_x, bbox.min_y), geo_transform) {
        Ok(p) => p,
        Err(e) => {
            return Err(e);
        },
    };
    let max = match projection_to_raster_space((bbox.max_x, bbox.max_y), geo_transform) {
        Ok(p) => p,
        Err(e) => {
            return Err(e);
        },
    };
    if min.0 > max.0 || min.1 > max.1 || min.0 > isize::MAX as usize || min.1
        > isize::MAX as usize {
        return Err(ErrorKind::InvalidWindow);
    }
    Ok(
        PixelWindow {
            column: min.0 as isize,
            row: min.1 as isize,
            width: max.0 - min.0,
            height: max.1 - min.1,
        },
    )
}

proof fn lemma_floor_div_grows(n: int, m: int, d: int)
    by (nonlinear_arith)
    requires
        n <= m,
        d > 0,
    ensures
        n / d <= m / d,
{
}

proof fn lemma_scaled_order(x: int, y: int, f: int)
    by (nonlinear_arith)
    requires
        x <= y,
        f > 0,
    ensures
        x * f <= y * f,
{
}

/// Success is owed to a box with its corners in order: under a transform
/// without rotation whose pixels grow along both axes, such a box spans a
/// window, unless its first pixel lies beyond the largest offset.
pub proof fn law_ordered_box_spans_window(bbox: BoundingBox, geo_transform: GeoTransform)
    requires
        bbox.well_formed(),
        bbox.ordered(),
        geo_transform.well_formed(),
        geo_transform.row_rot == 0,
        geo_transform.col_rot == 0,
        geo_transform.px_width > 0,
        geo_transform.px_height > 0,
    ensures
        window_of(bbox, geo_transform) is Ok || pixel_index(
            geo_transform.column_numerator((bbox.min_x, bbox.min_y)),
            geo_transform.determinant(),
        ) > isize::MAX || pixel_index(
            geo_transform.row_numerator((bbox.min_x, bbox.min_y)),
            geo_transform.determinant(),
        ) > isize::MAX,
{
    let a = geo_transform.px_width as int;
    let f = geo_transform.px_height as int;
    let det = geo_transform.determinant();
    assert(det == a * f && det > 0) by (nonlinear_arith)
        requires
            det == a * f - geo_transform.row_rot * geo_transform.col_rot,
            geo_transform.row_rot == 0,
            a > 0,
            f > 0,
    ;
    lemma_scaled_order(bbox.min_x - geo_transform.origin_x, bbox.max_x - geo_transform.origin_x, f);
    lemma_scaled_order(bbox.min_y - geo_transform.origin_y, bbox.max_y - geo_transform.origin_y, a);
    lemma_floor_div_grows(
        geo_transform.column_numerator((bbox.min_x, bbox.min_y)),
        geo_transform.column_numerator((bbox.max_x, bbox.max_y)),
        det,
    );
    lemma_floor_div_grows(
        geo_transform.row_numerator((bbox.min_x, bbox.min_y)),
        geo_transform.row_numerator((bbox.max_x, bbox.max_y)),
        det,
    );
}

/// A raster source: a storage root and the description of a layer.
pub struct GdalSource<'a> {
    base_path: &'a str,
    params: SourceParams,
}

impl<'a> GdalSource<'a> {
    /// The directory that the files of the layer lie in.
    pub closed spec fn base_path(&self) -> Seq<char> {
        self.base_path@
    }

    /// The description of the layer.
    pub closed spec fn params(&self) -> SourceParams {
        self.params
    }

    pub fn new(base_path: &'a str, params: SourceParams) -> (r: Self)
        ensures
            r.base_path() == base_path@,
            r.params() == params,
    {
        GdalSource { base_path: base_path, params: params }
    }

    /// The path of the raster file that answers `query`.
    ///
    /// Without a tick this is `dataset_name` under the base path, and the
    /// start time is not looked at. With a tick, the start time is snapped
    /// and written through `file_name_format`; a tick or a pattern that is
    /// at fault gives `ConfigurationError`.
    pub fn file_path(&self, query: &SpatioTemporalRasterQuery<Timestamp>) -> (r: Result<
        String,
        ErrorKind,
    >)
        ensures
            r is Ok <==> self.params().file_name(query.start_time) is Some,
            r matches Ok(path) ==> self.params().file_name(query.start_time) matches Some(name)
                && path@ == joined(self.base_path(), name),
            r matches Err(e) ==> e == ErrorKind::ConfigurationError,
    {
        match self.params.tick {
            None => Ok(join_path(self.base_path, self.params.dataset_name.as_str())),
            Some(tick) => {
                let snapped = match tick.snap_datetime(&query.start_time) {
                    Ok(s) => s,
                    Err(e) => {
                        return Err(e);
                    },
                };
                locate(self.base_path, snapped.format(self.params.file_name_format.as_str()))
            },
        }
    }

    /// One step of answering `query`: what is to be done after `event`.
    ///
    /// A query begins with `Begin` and ends with `Return` or `Fail`. In
    /// between, each action is carried out by the caller, who reports its
    /// outcome as the next event. The first failure ends the query: a
    /// failure of this source, or one that the caller reports. Samples are
    /// returned only where there is exactly one for each pixel of the size
    /// asked for.
    pub fn pull(&self, query: &SpatioTemporalRasterQuery<Timestamp>, event: PullEvent) -> (action:
        PullAction)
        ensures
            match event {
                PullEvent::Begin => match self.params().file_name(query.start_time) {
                    Some(name) => action matches PullAction::Open { path } && path@ == joined(
                        self.base_path(),
                        name,
                    ),
                    None => action == (PullAction::Fail { kind: ErrorKind::ConfigurationError }),
                },
                PullEvent::Opened { geo_transform } => match window_of(query.bbox, geo_transform) {
                    Ok(window) => action == (PullAction::Read {
                        request: ReadRequest {
                            window,
                            out_width: query.pixel_size.0 as usize,
                            out_height: query.pixel_size.1 as usize,
                        },
                    }),
                    Err(e) => action == (PullAction::Fail { kind: e }),
                },
                PullEvent::Read { samples } => if samples@.len() == query.pixel_size.0
                    * query.pixel_size.1 {
                    action == (PullAction::Return { samples })
                } else {
                    action == (PullAction::Fail { kind: ErrorKind::IoError })
                },
                PullEvent::Failed { kind } => action == (PullAction::Fail { kind }),
            },
    {
        match event {
            PullEvent::Begin => match self.file_path(query) {
                Ok(path) => PullAction::Open { path },
                Err(kind) => PullAction::Fail { kind },
            },
            PullEvent::Opened { geo_transform } => match self.read_request(query, &geo_transform) {
                Ok(request) => PullAction::Read { request },
                Err(kind) => PullAction::Fail { kind },
            },
            PullEvent::Read { samples } => {
                let width: u64 = query.pixel_size.0 as u64;
                let height: u64 = query.pixel_size.1 as u64;
                assert(width * height <= 0xffff_ffff * 0xffff_ffff) by (nonlinear_arith)
                    requires
                        width <= 0xffff_ffff,
                        height <= 0xffff_ffff,
                ;
                let expected: u64 = width * height;
                if samples.len() as u64 == expected {
                    PullAction::Return { samples }
                } else {
                    PullAction::Fail { kind: ErrorKind::IoError }
                }
            },
            PullEvent::Failed { kind } => PullAction::Fail { kind },
        }
    }

    /// What is to be read from a raster file with `geo_transform` to answer
    /// `query`: the window that the bounding box covers, resampled to the
    /// size that the query asks for.
    pub fn read_request<T>(
        &self,
        query: &SpatioTemporalRasterQuery<T>,
        geo_transform: &GeoTransform,
    ) -> (r: Result<ReadRequest, ErrorKind>)
        ensures
            r == match window_of(query.bbox, *geo_transform) {
                Ok(window) => Ok(
                    ReadRequest {
                        window,
                        out_width: query.pixel_size.0 as usize,
                        out_height: query.pixel_size.1 as usize,
                    },
                ),
                Err(e) => Err(e),
            },
    {
        match pixel_window(&query.bbox, geo_transform) {
            Ok(window) => Ok(
                ReadRequest {
                    window,
                    out_width: query.pixel_size.0 as usize,
                    out_height: query.pixel_size.1 as usize,
                },
            ),
            Err(e) => Err(e),
        }
    }
}

} // verus!
