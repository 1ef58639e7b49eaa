//! Resolution of spatio-temporal raster queries and colorization of the
//! samples they yield.
//!
//! A query names a layer, an instant, a rectangle in projection space and
//! the size of the image that is wanted. It is answered in four steps: the
//! instant is snapped to the raster file of the layer that covers it
//! ([`tick`], [`gdal_source`]); the rectangle is turned into a window of
//! the pixels of that file ([`geo_transform`]); the window is read; and the
//! samples are colorized into 8-bit pixels ([`gray_scale`]) and encoded
//! ([`encoding`]). Reading files is left to the caller, who is told what to
//! open and what to read.
//!
//! All numbers are integers. Projection coordinates and the coefficients of
//! a geo transform are fixed-point, with `COORD_SCALE` steps to the unit;
//! samples are whole numbers in whatever unit the caller reads them in.
//! Every result is exact: nothing is rounded but where a contract says so.

pub mod bounding_box;
pub mod calendar;
pub mod decimal;
pub mod encoding;
pub mod errors;
pub mod gdal_source;
pub mod geo_transform;
pub mod gray_scale;
pub mod query;
pub mod tick;
pub mod wms_service;
