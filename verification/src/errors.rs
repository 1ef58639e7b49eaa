//! The typed failures that a raster query can end in.

use vstd::prelude::*;
use vstd::string::StringExecFns;

verus! {

/// Why a raster query could not be answered.
///
/// Every step of a query fails fast with one of these kinds; no partial
/// image is ever produced.
#[derive(Debug, Clone, Copy, PartialEq, Eq, Structural)]
pub enum ErrorKind {
    /// The layer configuration is missing or invalid. This includes a tick
    /// with a field that is not positive, a tick that snaps a timestamp to a
    /// day that does not exist, and a file name pattern that cannot be
    /// rendered.
    ConfigurationError,
    /// The backing raster file does not exist or cannot be read.
    DatasetNotFound,
    /// The backing file is not a raster.
    InvalidFormat,
    /// The backing raster carries no geo transform.
    MissingGeoreference,
    /// The geo transform is singular and cannot be inverted.
    DegenerateTransform,
    /// The bounding box maps to pixel corners with `max` before `min`, or to
    /// an origin beyond what a raster offset can hold.
    InvalidWindow,
    /// A required query parameter is absent or unreadable.
    MissingRequiredParameter { param: WmsParam },
    /// A failure of the file system underneath.
    IoError,
}

/// The parameters of a map request.
#[derive(Debug, Clone, Copy, PartialEq, Eq, Structural)]
pub enum WmsParam {
    Width,
    Height,
    Bbox,
    Time,
    Layer,
}

impl WmsParam {
    /// The name of the parameter as it stands in a request.
    pub open spec fn name(self) -> Seq<char> {
        match self {
            WmsParam::Width => "width"@,
            WmsParam::Height => "height"@,
            WmsParam::Bbox => "bbox"@,
            WmsParam::Time => "time"@,
            WmsParam::Layer => "layer"@,
        }
    }

    /// The name of the parameter as it stands in a request.
    pub fn as_str(&self) -> (r: &'static str)
        ensures
            r@ == self.name(),
    {
        match self {
            WmsParam::Width => "width",
            WmsParam::Height => "height",
            WmsParam::Bbox => "bbox",
            WmsParam::Time => "time",
            WmsParam::Layer => "layer",
        }
    }
}

impl ErrorKind {
    /// What `message` says of this kind of failure.
    pub open spec fn message_text(self) -> Seq<char> {
        match self {
            ErrorKind::ConfigurationError => "The layer configuration is missing or invalid"@,
            ErrorKind::DatasetNotFound => "There is no dataset for this layer and time"@,
            ErrorKind::InvalidFormat => "The dataset is not a raster"@,
            ErrorKind::MissingGeoreference => "The dataset has no geo transform"@,
            ErrorKind::DegenerateTransform => "The geo transform of the dataset is singular"@,
            ErrorKind::InvalidWindow => "The bounding box does not span a window of the dataset"@,
            ErrorKind::MissingRequiredParameter { param } =>
                "The following WMS parameter is missing: "@ + param.name(),
            ErrorKind::IoError => "The dataset could not be read"@,
        }
    }

    /// The HTTP status that a failure of this kind is answered with: 400
    /// where the request is at fault, 404 where there is no dataset, 500
    /// where the service or its data are at fault.
    pub open spec fn status_code(self) -> u16 {
        match self {
            ErrorKind::MissingRequiredParameter { .. } => 400,
            ErrorKind::InvalidWindow => 400,
            ErrorKind::DatasetNotFound => 404,
            _ => 500,
        }
    }

    /// The HTTP status that a failure of this kind is answered with.
    pub fn status(&self) -> (r: u16)
        ensures
            r == self.status_code(),
    {
        match self {
            ErrorKind::MissingRequiredParameter { .. } => 400,
            ErrorKind::InvalidWindow => 400,
            ErrorKind::DatasetNotFound => 404,
            ErrorKind::ConfigurationError => 500,
            ErrorKind::InvalidFormat => 500,
            ErrorKind::MissingGeoreference => 500,
            ErrorKind::DegenerateTransform => 500,
            ErrorKind::IoError => 500,
        }
    }

    /// A sentence for the reader of a response.
    pub fn message(&self) -> (r: String)
        ensures
            r@ == self.message_text(),
    {
        match self {
            ErrorKind::ConfigurationError => String::from_str(
                "The layer configuration is missing or invalid",
            ),
            ErrorKind::DatasetNotFound => String::from_str(
                "There is no dataset for this layer and time",
            ),
            ErrorKind::InvalidFormat => String::from_str("The dataset is not a raster"),
            ErrorKind::MissingGeoreference => String::from_str("The dataset has no geo transform"),
            ErrorKind::DegenerateTransform => String::from_str(
                "The geo transform of the dataset is singular",
            ),
            ErrorKind::InvalidWindow => String::from_str(
                "The bounding box does not span a window of the dataset",
            ),
            ErrorKind::MissingRequiredParameter { param } => String::from_str(
                "The following WMS parameter is missing: ",
            ).concat(param.as_str()),
            ErrorKind::IoError => String::from_str("The dataset could not be read"),
        }
    }
}

} // verus!
