use vstd::prelude::*;

use crate::laea::{anchored, laea_descriptor};
use crate::projected::ProjectedGeometry;
use crate::projections::{
    chain_end, reprojection, reprojection_via, settled, transform_outcome, Epsg3035, Epsg4326, Laea,
    ProjectionError, Reprojection, ToEpsg3035, ToEpsg4326, ToLaea, TransformFailure, EPSG_3035,
    EPSG_4326,
};
use crate::raw::{RawPolygon, Shape};

verus! {

/// A polygon tagged with the system its coordinates are in.
#[derive(Debug)]
pub struct ProjectedPolygon<Projection> {
    polygon: RawPolygon,
    _marker: core::marker::PhantomData<Projection>,
}

impl<Projection> ProjectedPolygon<Projection> {
    /// The polygon inside.
    pub closed spec fn raw(&self) -> RawPolygon {
        self.polygon
    }

    /// A polygon tagged with `Projection`; only this module's conversions reach
    /// a tag other than `Epsg4326`.
    fn tagged(polygon: RawPolygon) -> (r: Self)
        ensures
            r.raw() == polygon,
    {
        ProjectedPolygon { polygon, _marker: core::marker::PhantomData }
    }

    /// The raw value inside, for reading.
    pub fn polygon(&self) -> (r: &RawPolygon)
        ensures
            *r == self.raw(),
    {
        &self.polygon
    }

    /// The polygon as a geometry of polygon shape.
    pub fn into_shape(self) -> (r: Shape)
        ensures
            r == Shape::Polygon(self.raw()),
    {
        Shape::Polygon(self.polygon)
    }

    /// Turns the engine's outcome into a polygon tagged `Target`.
    fn finish<Target>(transformed: Result<RawPolygon, TransformFailure>) -> (r: Result<
        ProjectedPolygon<Target>,
        ProjectionError,
    >)
        ensures
            r is Ok <==> transformed is Ok,
            r is Ok ==> r->Ok_0.raw() == transformed->Ok_0,
            r is Err ==> r == Err::<ProjectedPolygon<Target>, ProjectionError>(
                settled(transformed)->Err_0,
            ),
    {
        match transform_outcome(transformed) {
            Ok(p) => Ok(ProjectedPolygon::tagged(p)),
            Err(e) => Err(e),
        }
    }
}

impl<Projection> Clone for ProjectedPolygon<Projection> {
    fn clone(&self) -> (r: Self)
        ensures
            r.raw() == self.raw(),
    {
        ProjectedPolygon::tagged(self.polygon.clone())
    }
}

impl ProjectedPolygon<Epsg4326> {
    /// A polygon in longitude/latitude, where every polygon starts.
    pub fn new(polygon: RawPolygon) -> (r: ProjectedPolygon<Epsg4326>)
        ensures
            r.raw() == polygon,
    {
        ProjectedPolygon { polygon, _marker: core::marker::PhantomData }
    }
}

impl ToEpsg3035 for ProjectedPolygon<Epsg4326> {
    type Raw = RawPolygon;

    type Output = Result<ProjectedPolygon<Epsg3035>, ProjectionError>;

    fn epsg_3035_reprojection(&self) -> (r: Reprojection<RawPolygon>)
        ensures
            r.value == self.raw(),
            r.chain() == seq![EPSG_4326@, EPSG_3035@],
    {
        reprojection(self.polygon.clone(), EPSG_4326, EPSG_3035)
    }

    fn to_epsg_3035(&self, transformed: Result<RawPolygon, TransformFailure>) -> (r: Result<
        ProjectedPolygon<Epsg3035>,
        ProjectionError,
    >)
        ensures
            r is Ok <==> transformed is Ok,
            r is Ok ==> r->Ok_0.raw() == transformed->Ok_0,
            r is Err ==> r == Err::<ProjectedPolygon<Epsg3035>, ProjectionError>(
                settled(transformed)->Err_0,
            ),
    {
        Self::finish(transformed)
    }
}

impl ToEpsg4326 for ProjectedPolygon<Epsg3035> {
    type Raw = RawPolygon;

    type Output = Result<ProjectedPolygon<Epsg4326>, ProjectionError>;

    fn epsg_4326_reprojection(&self) -> (r: Reprojection<RawPolygon>)
        ensures
            r.value == self.raw(),
            r.chain() == seq![EPSG_3035@, EPSG_4326@],
    {
        reprojection(self.polygon.clone(), EPSG_3035, EPSG_4326)
    }

    fn to_epsg_4326(&self, transformed: Result<RawPolygon, TransformFailure>) -> (r: Result<
        ProjectedPolygon<Epsg4326>,
        ProjectionError,
    >)
        ensures
            r is Ok <==> transformed is Ok,
            r is Ok ==> r->Ok_0.raw() == transformed->Ok_0,
            r is Err ==> r == Err::<ProjectedPolygon<Epsg4326>, ProjectionError>(
                settled(transformed)->Err_0,
            ),
    {
        Self::finish(transformed)
    }
}

impl ToLaea for ProjectedPolygon<Epsg4326> {
    type Raw = RawPolygon;

    type Output = Result<ProjectedPolygon<Laea>, ProjectionError>;

    fn laea_reprojection(&self, origin: &ProjectedGeometry<Epsg4326>) -> (r: Result<
        Reprojection<RawPolygon>,
        ProjectionError,
    >)
        ensures
            chain_end(r) == anchored(origin.held()),
            r is Ok ==> r->Ok_0.value == self.raw() && r->Ok_0.chain().len() == 2
                && r->Ok_0.chain()[0] == EPSG_4326@,
    {
        match laea_descriptor(origin) {
            Ok(d) => Ok(reprojection(self.polygon.clone(), EPSG_4326, d.as_str())),
            Err(e) => Err(e),
        }
    }

    fn to_laea(&self, transformed: Result<RawPolygon, TransformFailure>) -> (r: Result<
        ProjectedPolygon<Laea>,
        ProjectionError,
    >)
        ensures
            r is Ok <==> transformed is Ok,
            r is Ok ==> r->Ok_0.raw() == transformed->Ok_0,
            r is Err ==> r == Err::<ProjectedPolygon<Laea>, ProjectionError>(
                settled(transformed)->Err_0,
            ),
    {
        Self::finish(transformed)
    }
}

impl ToLaea for ProjectedPolygon<Epsg3035> {
    type Raw = RawPolygon;

    type Output = Result<ProjectedPolygon<Laea>, ProjectionError>;

    /// The planar coordinates go back to longitude/latitude first, as the
    /// anchor is given in longitude/latitude.
    fn laea_reprojection(&self, origin: &ProjectedGeometry<Epsg4326>) -> (r: Result<
        Reprojection<RawPolygon>,
        ProjectionError,
    >)
        ensures
            chain_end(r) == anchored(origin.held()),
            r is Ok ==> r->Ok_0.value == self.raw() && r->Ok_0.chain().len() == 3
                && r->Ok_0.chain()[0] == EPSG_3035@ && r->Ok_0.chain()[1] == EPSG_4326@,
    {
        match laea_descriptor(origin) {
            Ok(d) => Ok(reprojection_via(self.polygon.clone(), EPSG_3035, EPSG_4326, d.as_str())),
            Err(e) => Err(e),
        }
    }

    fn to_laea(&self, transformed: Result<RawPolygon, TransformFailure>) -> (r: Result<
        ProjectedPolygon<Laea>,
        ProjectionError,
    >)
        ensures
            r is Ok <==> transformed is Ok,
            r is Ok ==> r->Ok_0.raw() == transformed->Ok_0,
            r is Err ==> r == Err::<ProjectedPolygon<Laea>, ProjectionError>(
                settled(transformed)->Err_0,
            ),
    {
        Self::finish(transformed)
    }
}

} // verus!
