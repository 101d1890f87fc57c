use vstd::prelude::*;

use crate::laea::{anchored, laea_descriptor};
use crate::projections::{
    centroid_or_empty, chain_end, failure_error, reprojection, reprojection_via, Epsg3035,
    Epsg4326, HasCentroid, Laea, ProjectionError, Reprojection, ToEpsg3035, ToEpsg4326, ToLaea,
    TransformFailure, EPSG_3035, EPSG_4326,
};
use crate::raw::{
    geometry_from, geometry_of, multi_polygon_centroid_of, polygon_centroid_of, shape_of,
    RawGeometry, RawPoint, Shape,
};

verus! {

/// A geometry of any shape, tagged with the system its coordinates are in.
#[derive(Debug)]
pub struct ProjectedGeometry<Projection> {
    shape: Shape,
    _marker: core::marker::PhantomData<Projection>,
}

/// What converting a geometry of shape `source` gives, once the engine has
/// returned `transformed`: the engine's failure, or its value where that
/// keeps the shape. An engine that changes the shape failed to apply the
/// transform.
pub open spec fn converted(source: Shape, transformed: Result<Shape, TransformFailure>) -> Result<
    Shape,
    ProjectionError,
> {
    if !source.is_supported() {
        Err(ProjectionError::UnsupportedGeometryShape)
    } else {
        match transformed {
            Err(f) => Err(failure_error(f)),
            Ok(s) => if s.same_kind(source) {
                Ok(s)
            } else {
                Err(ProjectionError::TransformApplication)
            },
        }
    }
}

/// The centroid of a geometry of shape `shape`: the point itself for a
/// point, what `geo` computes for a polygon or a multi-polygon (an error
/// where it has no point), and an error for any other shape.
pub open spec fn shape_centroid(shape: Shape) -> Result<RawPoint, ProjectionError> {
    match shape {
        Shape::Point(p) => Ok(p),
        Shape::Polygon(p) => centroid_or_empty(polygon_centroid_of(p)),
        Shape::MultiPolygon(p) => centroid_or_empty(multi_polygon_centroid_of(p)),
        Shape::Unsupported(_) => Err(ProjectionError::UnsupportedGeometryShape),
    }
}

impl HasCentroid for Shape {
    fn centroid(&self) -> (r: Result<RawPoint, ProjectionError>)
        ensures
            r == shape_centroid(*self),
    {
        match self {
            Shape::Point(p) => p.centroid(),
            Shape::Polygon(p) => p.centroid(),
            Shape::MultiPolygon(p) => p.centroid(),
            Shape::Unsupported(_) => Err(ProjectionError::UnsupportedGeometryShape),
        }
    }
}

/// The shape that converting `source` gives from the engine's outcome.
fn convert_shape(source: &Shape, transformed: Result<Shape, TransformFailure>) -> (r: Result<
    Shape,
    ProjectionError,
>)
    ensures
        r == converted(*source, transformed),
{
    if let Shape::Unsupported(_) = source {
        return Err(ProjectionError::UnsupportedGeometryShape);
    }
    match transformed {
        Err(TransformFailure::Construction) => Err(ProjectionError::TransformConstruction),
        Err(TransformFailure::Application) => Err(ProjectionError::TransformApplication),
        Ok(s) => {
            let same = match (source, &s) {
                (Shape::Point(_), Shape::Point(_)) => true,
                (Shape::Polygon(_), Shape::Polygon(_)) => true,
                (Shape::MultiPolygon(_), Shape::MultiPolygon(_)) => true,
                _ => false,
            };
            if same {
                Ok(s)
            } else {
                Err(ProjectionError::TransformApplication)
            }
        },
    }
}

impl<Projection> ProjectedGeometry<Projection> {
    /// The geometry inside, split by shape.
    pub closed spec fn held(&self) -> Shape {
        self.shape
    }

    fn tagged(shape: Shape) -> (r: Self)
        ensures
            r.held() == shape,
    {
        ProjectedGeometry { shape, _marker: core::marker::PhantomData }
    }

    /// The geometry inside, by shape.
    pub fn shape(&self) -> (r: &Shape)
        ensures
            *r == self.held(),
    {
        &self.shape
    }

    /// The geometry inside.
    pub fn geometry(&self) -> (r: RawGeometry)
        ensures
            r == geometry_from(self.held()),
    {
        geometry_of(self.shape.clone())
    }

    /// Turns the engine's outcome into a geometry tagged `Target`.
    fn finish<Target>(&self, transformed: Result<Shape, TransformFailure>) -> (r: Result<
        ProjectedGeometry<Target>,
        ProjectionError,
    >)
        ensures
            r is Ok <==> converted(self.held(), transformed) is Ok,
            r is Ok ==> r->Ok_0.held() == converted(self.held(), transformed)->Ok_0,
            r is Err ==> r->Err_0 == converted(self.held(), transformed)->Err_0,
    {
        match convert_shape(&self.shape, transformed) {
            Ok(s) => Ok(ProjectedGeometry::tagged(s)),
            Err(e) => Err(e),
        }
    }
}

impl<Projection> HasCentroid for ProjectedGeometry<Projection> {
    fn centroid(&self) -> (r: Result<RawPoint, ProjectionError>)
        ensures
            r == shape_centroid(self.held()),
    {
        self.shape.centroid()
    }
}

impl ProjectedGeometry<Epsg4326> {
    /// A geometry in longitude/latitude, where every geometry starts.
    pub fn new(geometry: RawGeometry) -> (r: ProjectedGeometry<Epsg4326>)
        ensures
            geometry_from(r.held()) == geometry,
    {
        ProjectedGeometry { shape: shape_of(geometry), _marker: core::marker::PhantomData }
    }

    /// A geometry in longitude/latitude, given by shape.
    pub fn from_shape(shape: Shape) -> (r: ProjectedGeometry<Epsg4326>)
        ensures
            r.held() == shape,
    {
        ProjectedGeometry { shape, _marker: core::marker::PhantomData }
    }
}

impl ToEpsg3035 for ProjectedGeometry<Epsg4326> {
    type Raw = Shape;

    type Output = Result<ProjectedGeometry<Epsg3035>, ProjectionError>;

    fn epsg_3035_reprojection(&self) -> (r: Reprojection<Shape>)
        ensures
            r.value == self.held(),
            r.chain() == seq![EPSG_4326@, EPSG_3035@],
    {
        reprojection(self.shape.clone(), EPSG_4326, EPSG_3035)
    }

    fn to_epsg_3035(&self, transformed: Result<Shape, TransformFailure>) -> (r: Result<
        ProjectedGeometry<Epsg3035>,
        ProjectionError,
    >)
        ensures
            r is Ok <==> converted(self.held(), transformed) is Ok,
            r is Ok ==> r->Ok_0.held() == converted(self.held(), transformed)->Ok_0,
            r is Err ==> r->Err_0 == converted(self.held(), transformed)->Err_0,
    {
        self.finish(transformed)
    }
}

impl ToEpsg4326 for ProjectedGeometry<Epsg3035> {
    type Raw = Shape;

    type Output = Result<ProjectedGeometry<Epsg4326>, ProjectionError>;

    fn epsg_4326_reprojection(&self) -> (r: Reprojection<Shape>)
        ensures
            r.value == self.held(),
            r.chain() == seq![EPSG_3035@, EPSG_4326@],
    {
        reprojection(self.shape.clone(), EPSG_3035, EPSG_4326)
    }

    fn to_epsg_4326(&self, transformed: Result<Shape, TransformFailure>) -> (r: Result<
        ProjectedGeometry<Epsg4326>,
        ProjectionError,
    >)
        ensures
            r is Ok <==> converted(self.held(), transformed) is Ok,
            r is Ok ==> r->Ok_0.held() == converted(self.held(), transformed)->Ok_0,
            r is Err ==> r->Err_0 == converted(self.held(), transformed)->Err_0,
    {
        self.finish(transformed)
    }
}

impl ToLaea for ProjectedGeometry<Epsg4326> {
    type Raw = Shape;

    type Output = Result<ProjectedGeometry<Laea>, ProjectionError>;

    fn laea_reprojection(&self, origin: &ProjectedGeometry<Epsg4326>) -> (r: Result<
        Reprojection<Shape>,
        ProjectionError,
    >)
        ensures
            chain_end(r) == anchored(origin.held()),
            r is Ok ==> r->Ok_0.value == self.held() && r->Ok_0.chain().len() == 2
                && r->Ok_0.chain()[0] == EPSG_4326@,
    {
        match laea_descriptor(origin) {
            Ok(d) => Ok(reprojection(self.shape.clone(), EPSG_4326, d.as_str())),
            Err(e) => Err(e),
        }
    }

    fn to_laea(&self, transformed: Result<Shape, TransformFailure>) -> (r: Result<
        ProjectedGeometry<Laea>,
        ProjectionError,
    >)
        ensures
            r is Ok <==> converted(self.held(), transformed) is Ok,
            r is Ok ==> r->Ok_0.held() == converted(self.held(), transformed)->Ok_0,
            r is Err ==> r->Err_0 == converted(self.held(), transformed)->Err_0,
    {
        self.finish(transformed)
    }
}

impl ToLaea for ProjectedGeometry<Epsg3035> {
    type Raw = Shape;

    type Output = Result<ProjectedGeometry<Laea>, ProjectionError>;

    /// The planar coordinates go back to longitude/latitude first, as the
    /// anchor is given in longitude/latitude.
    fn laea_reprojection(&self, origin: &ProjectedGeometry<Epsg4326>) -> (r: Result<
        Reprojection<Shape>,
        ProjectionError,
    >)
        ensures
            chain_end(r) == anchored(origin.held()),
            r is Ok ==> r->Ok_0.value == self.held() && r->Ok_0.chain().len() == 3
                && r->Ok_0.chain()[0] == EPSG_3035@ && r->Ok_0.chain()[1] == EPSG_4326@,
    {
        match laea_descriptor(origin) {
            Ok(d) => Ok(reprojection_via(self.shape.clone(), EPSG_3035, EPSG_4326, d.as_str())),
            Err(e) => Err(e),
        }
    }

    fn to_laea(&self, transformed: Result<Shape, TransformFailure>) -> (r: Result<
        ProjectedGeometry<Laea>,
        ProjectionError,
    >)
        ensures
            r is Ok <==> converted(self.held(), transformed) is Ok,
            r is Ok ==> r->Ok_0.held() == converted(self.held(), transformed)->Ok_0,
            r is Err ==> r->Err_0 == converted(self.held(), transformed)->Err_0,
    {
        self.finish(transformed)
    }
}

} // verus!

verus! {

/// Converting a geometry to another system never changes its shape: a
/// point stays a point, a polygon a polygon, a multi-polygon a
/// multi-polygon, whatever the engine returned.
pub proof fn lemma_conversion_keeps_shape<P>(
    source: ProjectedGeometry<P>,
    transformed: Result<Shape, TransformFailure>,
)
    ensures
        converted(source.held(), transformed) is Ok ==> converted(
            source.held(),
            transformed,
        )->Ok_0.same_kind(source.held()),
        source.held() is MultiPolygon && converted(source.held(), transformed) is Ok
            ==> converted(source.held(), transformed)->Ok_0 is MultiPolygon,
{
}

/// An engine that cannot build the transform, say for a malformed
/// identifier, is reported as a failure to construct the transform for
/// every supported geometry, never as a value.
pub proof fn lemma_construction_failure_reported<P>(source: ProjectedGeometry<P>)
    ensures
        source.held().is_supported() ==> converted(
            source.held(),
            Err(TransformFailure::Construction),
        ) == Err::<Shape, ProjectionError>(ProjectionError::TransformConstruction),
{
}

} // verus!

verus! {

/// Asking a geometry of a supported shape for its centroid never fails but
/// where the geometry has no point: a point always has one, a polygon or a
/// multi-polygon whenever `geo` finds one; only other shapes are refused.
pub proof fn lemma_supported_shapes_have_centroid(shape: Shape)
    ensures
        shape is Point ==> shape_centroid(shape) is Ok,
        shape matches Shape::Polygon(p) && polygon_centroid_of(p) is Some ==> shape_centroid(
            shape,
        ) is Ok,
        shape matches Shape::MultiPolygon(p) && multi_polygon_centroid_of(p) is Some
            ==> shape_centroid(shape) is Ok,
        shape_centroid(shape) == Err::<RawPoint, ProjectionError>(
            ProjectionError::UnsupportedGeometryShape,
        ) <==> !shape.is_supported(),
{
}

} // verus!
