//! Decoding of map requests: from the query string of a request to a typed
//! raster query and the name of the layer it asks for.

use vstd::prelude::*;
use vstd::string::StringExecFns;
use vstd::utf8::encode_utf8;
use chrono::{Datelike, Timelike};
use crate::bounding_box::{parsed, whole_globe, BoundingBox};
use crate::calendar::{valid_date, valid_time, Timestamp};
use crate::decimal::{parse_unsigned, unsigned_of};
use crate::encoding::{png_bytes, to_png};
use crate::errors::{ErrorKind, WmsParam};
use crate::gdal_source::{join_path, joined};
use crate::gray_scale::{Colorizer, MinMaxScale};
use crate::query::SpatioTemporalRasterQuery;

verus! {

/// The width and the height of an answer where the request names none.
pub const DEFAULT_DIMENSION: u32 = 256;

/// The name and value pairs that the `application/x-www-form-urlencoded`
/// text `query` decodes to, in the order in which they stand.
pub uninterp spec fn form_pairs(query: Seq<char>) -> Seq<(Seq<char>, Seq<char>)>;

/// Year, month, day, hour, minute and second, in UTC, of the instant that
/// `text` writes in the relaxed RFC 3339 form that chrono reads; `None`
/// where chrono does not read `text`.
pub uninterp spec fn utc_instant(text: Seq<char>) -> Option<(int, int, int, int, int, int)>;

/// Name and value of each pair, as texts.
pub open spec fn pairs_view(pairs: Seq<(String, String)>) -> Seq<(Seq<char>, Seq<char>)> {
    Seq::new(pairs.len(), |i: int| (pairs[i].0@, pairs[i].1@))
}

/// Decodes a query string with `url::form_urlencoded::parse`.
///
/// Believed, not proved: the pairs are a function of the text alone.
#[verifier::external_body]
fn parse_query(query: &str) -> (r: Vec<(String, String)>)
    ensures
        pairs_view(r@) == form_pairs(query@),
{
    url::form_urlencoded::parse(query.as_bytes()).into_owned().collect()
}

/// Reads an instant with chrono's `FromStr` for `DateTime<Utc>` and takes
/// its UTC calendar fields.
///
/// Believed, not proved: the fields are a function of the text alone.
/// Nothing is claimed of their ranges.
#[verifier::external_body]
fn parse_instant(text: &str) -> (r: Option<(i32, u32, u32, u32, u32, u32)>)
    ensures
        r is Some <==> utc_instant(text@) is Some,
        r matches Some(f) ==> utc_instant(text@) == Some(
            (f.0 as int, f.1 as int, f.2 as int, f.3 as int, f.4 as int, f.5 as int),
        ),
{
    let instant = text.parse::<chrono::DateTime<chrono::Utc>>().ok()?.naive_utc();
    Some(
        (
            instant.year(),
            instant.month(),
            instant.day(),
            instant.hour(),
            instant.minute(),
            instant.second(),
        ),
    )
}

/// The value of the parameter `key`: that of the last pair with this name.
pub open spec fn param(pairs: Seq<(Seq<char>, Seq<char>)>, key: Seq<char>) -> Option<Seq<char>>
    decreases pairs.len(),
{
    if pairs.len() == 0 {
        None
    } else if pairs.last().0 == key {
        Some(pairs.last().1)
    } else {
        param(pairs.drop_last(), key)
    }
}

/// The width or height that the request names under `key`; the default
/// where it names none, or none that reads as an unsigned number.
pub open spec fn dimension(pairs: Seq<(Seq<char>, Seq<char>)>, key: Seq<char>) -> u32 {
    match param(pairs, key) {
        Some(text) => match unsigned_of(encode_utf8(text)) {
            Ok(n) => n,
            Err(_) => DEFAULT_DIMENSION,
        },
        None => DEFAULT_DIMENSION,
    }
}

/// The bounding box that the request names; the whole globe where it names
/// none, or none that reads as a bounding box.
pub open spec fn requested_bbox(pairs: Seq<(Seq<char>, Seq<char>)>) -> BoundingBox {
    match param(pairs, "bbox"@) {
        Some(text) => match parsed(encode_utf8(text)) {
            Ok(bbox) => bbox,
            Err(_) => whole_globe(),
        },
        None => whole_globe(),
    }
}

/// The instant that `fields` name: date and time as numbers, where they
/// name a day and a time of day.
pub open spec fn instant(fields: Option<(int, int, int, int, int, int)>) -> Option<
    ((int, int, int), (int, int, int)),
> {
    match fields {
        Some(f) => if valid_date(f.0, f.1, f.2) && valid_time(f.3, f.4, f.5) {
            Some(((f.0, f.1, f.2), (f.3, f.4, f.5)))
        } else {
            None
        },
        None => None,
    }
}

/// The instant that the request names under `time`, if it names one.
pub open spec fn requested_instant(pairs: Seq<(Seq<char>, Seq<char>)>) -> Option<
    ((int, int, int), (int, int, int)),
> {
    match param(pairs, "time"@) {
        Some(text) => instant(utc_instant(text)),
        None => None,
    }
}

/// Looks a parameter up by name. Of several pairs with one name the last
/// counts.
pub fn find_param<'a>(pairs: &'a Vec<(String, String)>, key: &str) -> (r: Option<&'a String>)
    ensures
        r is Some <==> param(pairs_view(pairs@), key@) is Some,
        r matches Some(value) ==> param(pairs_view(pairs@), key@) == Some(value@),
{
    let name = String::from_str(key);
    let ghost all = pairs_view(pairs@);
    let mut i: usize = pairs.len();
    proof {
        assert(all.take(i as int) =~= all);
    }
    while i > 0
        invariant
            i <= pairs@.len(),
            name@ == key@,
            all == pairs_view(pairs@),
            param(all, key@) == param(all.take(i as int), key@),
        decreases i,
    {
        i = i - 1;
        proof {
            assert(all.take(i + 1).drop_last() =~= all.take(i as int));
        }
        if pairs[i].0 == name {
            return Some(&pairs[i].1);
        }
    }
    None
}

/// Turns the outcome of reading the `time` parameter into the start of a
/// query.
pub fn start_time(fields: Option<(i32, u32, u32, u32, u32, u32)>) -> (r: Result<
    Timestamp,
    ErrorKind,
>)
    ensures
        r is Ok <==> (fields matches Some(f) && valid_date(f.0 as int, f.1 as int, f.2 as int)
            && valid_time(f.3 as int, f.4 as int, f.5 as int)),
        r matches Ok(t) ==> (fields matches Some(f) && t.date@ == (
            f.0 as int,
            f.1 as int,
            f.2 as int,
        ) && t.time@ == (f.3 as int, f.4 as int, f.5 as int)),
        r matches Err(e) ==> e == (ErrorKind::MissingRequiredParameter { param: WmsParam::Time }),
{
    let missing = Err(ErrorKind::MissingRequiredParameter { param: WmsParam::Time });
    match fields {
        Some(f) => match Timestamp::from_fields(f.0, f.1, f.2, f.3, f.4, f.5) {
            Some(t) => Ok(t),
            None => missing,
        },
        None => missing,
    }
}

/// A raster service over the layers under one directory.
#[derive(Debug)]
pub struct WmsService {
    base_path: String,
}

impl Clone for WmsService {
    fn clone(&self) -> (r: Self)
        ensures
            r.base_path() == self.base_path(),
    {
        WmsService { base_path: self.base_path.clone() }
    }
}

impl WmsService {
    /// The directory that the layers lie in.
    pub closed spec fn base_path(&self) -> Seq<char> {
        self.base_path@
    }

    pub fn new(base_path: String) -> (r: Self)
        ensures
            r.base_path() == base_path@,
    {
        WmsService { base_path: base_path }
    }

    /// The directory that the layers lie in.
    pub fn root(&self) -> (r: &str)
        ensures
            r@ == self.base_path(),
    {
        self.base_path.as_str()
    }

    /// Where the description of the layer `dataset_name` is kept.
    pub fn config_path(&self, dataset_name: &str) -> (r: String)
        ensures
            r@ == joined(self.base_path(), dataset_name@),
    {
        join_path(self.base_path.as_str(), dataset_name)
    }

    /// The raster query that the parameters of a request ask for.
    ///
    /// `width` and `height` default to 256 and `bbox` to the whole globe,
    /// also where they are present and cannot be read. `time` is required:
    /// without a readable instant the request fails with
    /// `MissingRequiredParameter`.
    pub fn build_query_from_params(pairs: &Vec<(String, String)>) -> (r: Result<
        SpatioTemporalRasterQuery<Timestamp>,
        ErrorKind,
    >)
        ensures
            r is Ok <==> requested_instant(pairs_view(pairs@)) is Some,
            r matches Ok(q) ==> {
                &&& q.pixel_size == (
                    dimension(pairs_view(pairs@), "width"@),
                    dimension(pairs_view(pairs@), "height"@),
                )
                &&& q.bbox == requested_bbox(pairs_view(pairs@))
                &&& Some((q.start_time.date@, q.start_time.time@)) == requested_instant(
                    pairs_view(pairs@),
                )
            },
            r matches Err(e) ==> e == (ErrorKind::MissingRequiredParameter {
                param: WmsParam::Time,
            }),
    {
        let width = read_dimension(pairs, "width");
        let height = read_dimension(pairs, "height");
        let bbox = match find_param(pairs, "bbox") {
            Some(text) => match BoundingBox::from_str(text.as_str()) {
                Ok(b) => b,
                Err(_) => BoundingBox::default(),
            },
            None => BoundingBox::default(),
        };
        let fields = match find_param(pairs, "time") {
            Some(text) => parse_instant(text.as_str()),
            None => None,
        };
        match start_time(fields) {
            Ok(start) => Ok(
                SpatioTemporalRasterQuery { start_time: start, bbox: bbox, pixel_size: (width, height) },
            ),
            Err(e) => Err(e),
        }
    }

    /// The answer to `query` for the samples that were read for it: the
    /// samples colorized by their span, as a PNG image of the size asked
    /// for. There must be exactly one sample for each pixel.
    pub fn render<T>(query: &SpatioTemporalRasterQuery<T>, samples: &[i64]) -> (r: Result<
        Vec<u8>,
        ErrorKind,
    >)
        requires
            samples@.len() == query.pixel_size.0 as int * query.pixel_size.1 as int,
        ensures
            r is Ok <==> png_bytes(
                MinMaxScale.pixels(samples@),
                query.pixel_size.0 as int,
                query.pixel_size.1 as int,
            ) is Some,
            r matches Ok(bytes) ==> Some(bytes@) == png_bytes(
                MinMaxScale.pixels(samples@),
                query.pixel_size.0 as int,
                query.pixel_size.1 as int,
            ),
            r matches Err(e) ==> e == ErrorKind::IoError,
    {
        let colorizer = MinMaxScale::new();
        let pixels = colorizer.colorize(samples, query.pixel_size);
        to_png(&pixels, query.pixel_size)
    }

    /// The layer that the parameters of a request name. `layer` is
    /// required.
    pub fn layer(pairs: &Vec<(String, String)>) -> (r: Result<String, ErrorKind>)
        ensures
            r is Ok <==> param(pairs_view(pairs@), "layer"@) is Some,
            r matches Ok(name) ==> param(pairs_view(pairs@), "layer"@) == Some(name@),
            r matches Err(e) ==> e == (ErrorKind::MissingRequiredParameter {
                param: WmsParam::Layer,
            }),
    {
        match find_param(pairs, "layer") {
            Some(name) => Ok(name.clone()),
            None => Err(ErrorKind::MissingRequiredParameter { param: WmsParam::Layer }),
        }
    }

    /// Decodes the query string of a request into the raster query and the
    /// layer it names. A missing instant is reported before a missing
    /// layer.
    pub fn decode(query: &str) -> (r: Result<
        (SpatioTemporalRasterQuery<Timestamp>, String),
        ErrorKind,
    >)
        ensures
            r is Ok <==> requested_instant(form_pairs(query@)) is Some && param(
                form_pairs(query@),
                "layer"@,
            ) is Some,
            r matches Ok(d) ==> {
                &&& d.0.pixel_size == (
                    dimension(form_pairs(query@), "width"@),
                    dimension(form_pairs(query@), "height"@),
                )
                &&& d.0.bbox == requested_bbox(form_pairs(query@))
                &&& Some((d.0.start_time.date@, d.0.start_time.time@)) == requested_instant(
                    form_pairs(query@),
                )
                &&& Some(d.1@) == param(form_pairs(query@), "layer"@)
            },
            r matches Err(e) ==> e == (ErrorKind::MissingRequiredParameter {
                param: if requested_instant(form_pairs(query@)) is None {
                    WmsParam::Time
                } else {
                    WmsParam::Layer
                },
            }),
    {
        let pairs = parse_query(query);
        let raster_query = match WmsService::build_query_from_params(&pairs) {
            Ok(q) => q,
            Err(e) => {
                return Err(e);
            },
        };
        match WmsService::layer(&pairs) {
            Ok(name) => Ok((raster_query, name)),
            Err(e) => Err(e),
        }
    }
}

/// Reads the width or the height of the answer.
fn read_dimension(pairs: &Vec<(String, String)>, key: &str) -> (r: u32)
    ensures
        r == dimension(pairs_view(pairs@), key@),
{
    match find_param(pairs, key) {
        Some(text) => match parse_unsigned(text.as_str().as_bytes()) {
            Ok(n) => n,
            Err(_) => DEFAULT_DIMENSION,
        },
        None => DEFAULT_DIMENSION,
    }
}

} // verus!
