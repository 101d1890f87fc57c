//! The geometry primitives of `geo`, carried through the library as opaque
//! values. Verus cannot declare `geo`'s geometry types (their coordinate
//! parameter is bound by `geo::CoordNum`, which it refuses), so each one is
//! held in a struct of this library that Verus does not look into.
use geo::Centroid;
use vstd::prelude::*;

verus! {

/// A `geo::Point` with `f64` coordinates.
#[verifier::external_body]
#[derive(Debug, PartialEq)]
pub struct RawPoint(pub geo::Point);

impl Clone for RawPoint {
    /// Relies on the derived `Clone` of `geo::Point`: the copy is equal.
    #[verifier::external_body]
    fn clone(&self) -> (r: Self)
        ensures
            r == *self,
    {
        RawPoint(self.0.clone())
    }
}

/// A `geo::Polygon` with `f64` coordinates.
#[verifier::external_body]
#[derive(Debug, PartialEq)]
pub struct RawPolygon(pub geo::Polygon);

impl Clone for RawPolygon {
    /// Relies on the derived `Clone` of `geo::Polygon`: the copy is equal.
    #[verifier::external_body]
    fn clone(&self) -> (r: Self)
        ensures
            r == *self,
    {
        RawPolygon(self.0.clone())
    }
}

/// A `geo::MultiPolygon` with `f64` coordinates.
#[verifier::external_body]
#[derive(Debug, PartialEq)]
pub struct RawMultiPolygon(pub geo::MultiPolygon);

impl Clone for RawMultiPolygon {
    /// Relies on the derived `Clone` of `geo::MultiPolygon`: the copy is equal.
    #[verifier::external_body]
    fn clone(&self) -> (r: Self)
        ensures
            r == *self,
    {
        RawMultiPolygon(self.0.clone())
    }
}

/// A `geo::Geometry` with `f64` coordinates, of any shape.
#[verifier::external_body]
#[derive(Debug, PartialEq)]
pub struct RawGeometry(pub geo::Geometry);

impl Clone for RawGeometry {
    /// Relies on the derived `Clone` of `geo::Geometry`: the copy is equal.
    #[verifier::external_body]
    fn clone(&self) -> (r: Self)
        ensures
            r == *self,
    {
        RawGeometry(self.0.clone())
    }
}

/// A raw geometry split by its shape: the closed set of shapes that this
/// library converts, and everything else.
#[derive(Debug, PartialEq)]
pub enum Shape {
    Point(RawPoint),
    Polygon(RawPolygon),
    MultiPolygon(RawMultiPolygon),
    Unsupported(RawGeometry),
}

impl Clone for Shape {
    fn clone(&self) -> (r: Self)
        ensures
            r == *self,
    {
        match self {
            Shape::Point(p) => Shape::Point(p.clone()),
            Shape::Polygon(p) => Shape::Polygon(p.clone()),
            Shape::MultiPolygon(p) => Shape::MultiPolygon(p.clone()),
            Shape::Unsupported(g) => Shape::Unsupported(g.clone()),
        }
    }
}

impl Shape {
    /// Whether the shape is one that this library converts.
    pub open spec fn is_supported(self) -> bool {
        !(self is Unsupported)
    }

    /// Whether two shapes hold the same kind of geometry.
    pub open spec fn same_kind(self, other: Shape) -> bool {
        &&& (self is Point <==> other is Point)
        &&& (self is Polygon <==> other is Polygon)
        &&& (self is MultiPolygon <==> other is MultiPolygon)
        &&& (self is Unsupported <==> other is Unsupported)
    }
}

/// The `geo::Geometry` that holds the value of `shape` in the variant of the
/// same name (an unsupported shape holds its geometry whole).
pub uninterp spec fn geometry_from(shape: Shape) -> RawGeometry;

/// Relies on the variants of `geo::Geometry`: the value inside is moved,
/// unchanged, into the variant of the same name, so that moving it back
/// gives the geometry again.
#[verifier::external_body]
pub(crate) fn shape_of(geometry: RawGeometry) -> (r: Shape)
    ensures
        geometry_from(r) == geometry,
{
    match geometry.0 {
        geo::Geometry::Point(p) => Shape::Point(RawPoint(p)),
        geo::Geometry::Polygon(p) => Shape::Polygon(RawPolygon(p)),
        geo::Geometry::MultiPolygon(p) => Shape::MultiPolygon(RawMultiPolygon(p)),
        other => Shape::Unsupported(RawGeometry(other)),
    }
}

/// Relies on the variants of `geo::Geometry`: the value is moved, unchanged,
/// into the variant of the same name.
#[verifier::external_body]
pub(crate) fn geometry_of(shape: Shape) -> (r: RawGeometry)
    ensures
        r == geometry_from(shape),
{
    match shape {
        Shape::Point(p) => RawGeometry(geo::Geometry::Point(p.0)),
        Shape::Polygon(p) => RawGeometry(geo::Geometry::Polygon(p.0)),
        Shape::MultiPolygon(p) => RawGeometry(geo::Geometry::MultiPolygon(p.0)),
        Shape::Unsupported(g) => g,
    }
}

/// Relies on `geo::Centroid` for `Point`: a point is its own centroid.
#[verifier::external_body]
pub(crate) fn point_centroid(point: &RawPoint) -> (r: RawPoint)
    ensures
        r == *point,
{
    RawPoint(point.0.centroid())
}

/// The centroid that `geo` computes for a polygon.
pub uninterp spec fn polygon_centroid_of(polygon: RawPolygon) -> Option<RawPoint>;

/// The centroid that `geo` computes for a multi-polygon.
pub uninterp spec fn multi_polygon_centroid_of(multi_polygon: RawMultiPolygon) -> Option<RawPoint>;

/// The latitude and the longitude of a point as `f64`'s `Display` writes them.
pub uninterp spec fn lat_lon_of(point: RawPoint) -> (Seq<char>, Seq<char>);

/// Relies on `geo::Centroid` for `Polygon`, which gives `None` for a polygon
/// without points; the result depends on the polygon alone.
#[verifier::external_body]
pub(crate) fn polygon_centroid(polygon: &RawPolygon) -> (r: Option<RawPoint>)
    ensures
        r == polygon_centroid_of(*polygon),
{
    polygon.0.centroid().map(RawPoint)
}

/// Relies on `geo::Centroid` for `MultiPolygon`, which gives `None` for a
/// multi-polygon without points; the result depends on the multi-polygon
/// alone.
#[verifier::external_body]
pub(crate) fn multi_polygon_centroid(multi_polygon: &RawMultiPolygon) -> (r: Option<RawPoint>)
    ensures
        r == multi_polygon_centroid_of(*multi_polygon),
{
    multi_polygon.0.centroid().map(RawPoint)
}

/// Relies on `geo::Point::x_y` and on the `Display` of `f64`: the latitude
/// (`y`) and the longitude (`x`) of a point, as decimal text, which depends
/// on the point alone.
#[verifier::external_body]
pub(crate) fn lat_lon_text(point: &RawPoint) -> (r: (String, String))
    ensures
        (r.0@, r.1@) == lat_lon_of(*point),
{
    let (x, y) = point.0.x_y();
    (format!("{}", y), format!("{}", x))
}

} // verus!
