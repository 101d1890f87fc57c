//! Descriptors of Lambert azimuthal equal-area systems anchored at a point.
use vstd::prelude::*;

use crate::projected::{shape_centroid, ProjectedGeometry};
use crate::projections::{Epsg4326, HasCentroid, ProjectionError};
use crate::raw::{lat_lon_of, lat_lon_text, Shape};

verus! {

/// The PROJ descriptor of a Lambert azimuthal equal-area system centred at
/// latitude `lat` and longitude `lon` (both as decimal text), on the WGS84
/// ellipsoid, with no false easting or northing, in metres.
pub open spec fn laea_text(lat: Seq<char>, lon: Seq<char>) -> Seq<char> {
    "+proj=laea +lat_0="@ + lat + " +lon_0="@ + lon
        + " +x_0=0 +y_0=0 +ellps=WGS84 +units=m +no_defs"@
}

/// Whether `part` stands somewhere in `text`.
pub open spec fn holds_text(text: Seq<char>, part: Seq<char>) -> bool {
    exists|i: int| 0 <= i && i + part.len() <= text.len() && #[trigger] text.subrange(i, i + part.len()) == part
}

/// Builds the descriptor of the equal-area system centred at `lat`, `lon`.
pub fn make_laea_str(lat: &str, lon: &str) -> (r: String)
    ensures
        r@ == laea_text(lat@, lon@),
{
    let mut r = String::from_str("+proj=laea +lat_0=");
    r.append(lat);
    r.append(" +lon_0=");
    r.append(lon);
    r.append(" +x_0=0 +y_0=0 +ellps=WGS84 +units=m +no_defs");
    proof {
        reveal_strlit("+proj=laea +lat_0=");
        reveal_strlit(" +lon_0=");
        reveal_strlit(" +x_0=0 +y_0=0 +ellps=WGS84 +units=m +no_defs");
    }
    r
}

/// The descriptor of an equal-area system names its anchor: it holds
/// `lat_0=` followed by the latitude and `lon_0=` followed by the longitude.
pub proof fn lemma_descriptor_names_anchor(lat: Seq<char>, lon: Seq<char>)
    ensures
        holds_text(laea_text(lat, lon), "lat_0="@ + lat),
        holds_text(laea_text(lat, lon), "lon_0="@ + lon),
{
    reveal_strlit("+proj=laea +lat_0=");
    reveal_strlit(" +lon_0=");
    reveal_strlit(" +x_0=0 +y_0=0 +ellps=WGS84 +units=m +no_defs");
    reveal_strlit("lat_0=");
    reveal_strlit("lon_0=");
    let t = laea_text(lat, lon);
    let a = "lat_0="@ + lat;
    let b = "lon_0="@ + lon;
    let i: int = 12;
    assert(t.subrange(i, i + a.len()) =~= a);
    let j: int = 20 + lat.len() as int;
    assert(t.subrange(j, j + b.len()) =~= b);
}

/// The descriptor of the equal-area system anchored at the centroid of a
/// geometry of shape `origin`, or the error that the centroid came with.
pub open spec fn anchored(origin: Shape) -> Result<Seq<char>, ProjectionError> {
    match shape_centroid(origin) {
        Ok(c) => Ok(laea_text(lat_lon_of(c).0, lat_lon_of(c).1)),
        Err(e) => Err(e),
    }
}

/// The text of a descriptor, or the error instead.
pub open spec fn descriptor_text(r: Result<String, ProjectionError>) -> Result<Seq<char>, ProjectionError> {
    match r {
        Ok(s) => Ok(s@),
        Err(e) => Err(e),
    }
}

/// The descriptor of the equal-area system anchored at the centroid of
/// `origin`, or why that centroid could not be had.
pub fn laea_descriptor(origin: &ProjectedGeometry<Epsg4326>) -> (r: Result<String, ProjectionError>)
    ensures
        descriptor_text(r) == anchored(origin.held()),
{
    match origin.centroid() {
        Ok(c) => {
            let (lat, lon) = lat_lon_text(&c);
            Ok(make_laea_str(lat.as_str(), lon.as_str()))
        },
        Err(e) => Err(e),
    }
}

} // verus!
