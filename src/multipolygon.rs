use vstd::prelude::*;

use crate::laea::{anchored, laea_descriptor};
use crate::projected::ProjectedGeometry;
use crate::projections::{
    chain_end, reprojection, reprojection_via, settled, transform_outcome, Epsg3035, Epsg4326, Laea,
    ProjectionError, Reprojection, ToEpsg3035, ToEpsg4326, ToLaea, TransformFailure, EPSG_3035,
    EPSG_4326,
};
use crate::raw::{RawMultiPolygon, Shape};

verus! {

/// A multi-polygon tagged with the system its coordinates are in.
#[derive(Debug)]
pub struct ProjectedMultiPolygon<Projection> {
    multi_polygon: RawMultiPolygon,
    _marker: core::marker::PhantomData<Projection>,
}

impl<Projection> ProjectedMultiPolygon<Projection> {
    /// The multi-polygon inside.
    pub closed spec fn raw(&self) -> RawMultiPolygon {
        self.multi_polygon
    }

    /// A multi-polygon tagged with `Projection`; only this module's conversions reach
    /// a tag other than `Epsg4326`.
    fn tagged(multi_polygon: RawMultiPolygon) -> (r: Self)
        ensures
            r.raw() == multi_polygon,
    {
        ProjectedMultiPolygon { multi_polygon, _marker: core::marker::PhantomData }
    }

    /// The raw value inside, for reading.
    pub fn multi_polygon(&self) -> (r: &RawMultiPolygon)
        ensures
            *r == self.raw(),
    {
        &self.multi_polygon
    }

    /// The multi-polygon as a geometry of multi-polygon shape.
    pub fn into_shape(self) -> (r: Shape)
        ensures
            r == Shape::MultiPolygon(self.raw()),
    {
        Shape::MultiPolygon(self.multi_polygon)
    }

    /// Turns the engine's outcome into a multi-polygon tagged `Target`.
    fn finish<Target>(transformed: Result<RawMultiPolygon, TransformFailure>) -> (r: Result<
        ProjectedMultiPolygon<Target>,
        ProjectionError,
    >)
        ensures
            r is Ok <==> transformed is Ok,
            r is Ok ==> r->Ok_0.raw() == transformed->Ok_0,
            r is Err ==> r == Err::<ProjectedMultiPolygon<Target>, ProjectionError>(
                settled(transformed)->Err_0,
            ),
    {
        match transform_outcome(transformed) {
            Ok(p) => Ok(ProjectedMultiPolygon::tagged(p)),
            Err(e) => Err(e),
        }
    }
}

impl<Projection> Clone for ProjectedMultiPolygon<Projection> {
    fn clone(&self) -> (r: Self)
        ensures
            r.raw() == self.raw(),
    {
        ProjectedMultiPolygon::tagged(self.multi_polygon.clone())
    }
}

impl ProjectedMultiPolygon<Epsg4326> {
    /// A multi-polygon in longitude/latitude, where every multi-polygon starts.
    pub fn new(multi_polygon: RawMultiPolygon) -> (r: ProjectedMultiPolygon<Epsg4326>)
        ensures
            r.raw() == multi_polygon,
    {
        ProjectedMultiPolygon { multi_polygon, _marker: core::marker::PhantomData }
    }
}

impl ToEpsg3035 for ProjectedMultiPolygon<Epsg4326> {
    type Raw = RawMultiPolygon;

    type Output = Result<ProjectedMultiPolygon<Epsg3035>, ProjectionError>;

    fn epsg_3035_reprojection(&self) -> (r: Reprojection<RawMultiPolygon>)
        ensures
            r.value == self.raw(),
            r.chain() == seq![EPSG_4326@, EPSG_3035@],
    {
        reprojection(self.multi_polygon.clone(), EPSG_4326, EPSG_3035)
    }

    fn to_epsg_3035(&self, transformed: Result<RawMultiPolygon, TransformFailure>) -> (r: Result<
        ProjectedMultiPolygon<Epsg3035>,
        ProjectionError,
    >)
        ensures
            r is Ok <==> transformed is Ok,
            r is Ok ==> r->Ok_0.raw() == transformed->Ok_0,
            r is Err ==> r == Err::<ProjectedMultiPolygon<Epsg3035>, ProjectionError>(
                settled(transformed)->Err_0,
            ),
    {
        Self::finish(transformed)
    }
}

impl ToEpsg4326 for ProjectedMultiPolygon<Epsg3035> {
    type Raw = RawMultiPolygon;

    type Output = Result<ProjectedMultiPolygon<Epsg4326>, ProjectionError>;

    fn epsg_4326_reprojection(&self) -> (r: Reprojection<RawMultiPolygon>)
        ensures
            r.value == self.raw(),
            r.chain() == seq![EPSG_3035@, EPSG_4326@],
    {
        reprojection(self.multi_polygon.clone(), EPSG_3035, EPSG_4326)
    }

    fn to_epsg_4326(&self, transformed: Result<RawMultiPolygon, TransformFailure>) -> (r: Result<
        ProjectedMultiPolygon<Epsg4326>,
        ProjectionError,
    >)
        ensures
            r is Ok <==> transformed is Ok,
            r is Ok ==> r->Ok_0.raw() == transformed->Ok_0,
            r is Err ==> r == Err::<ProjectedMultiPolygon<Epsg4326>, ProjectionError>(
                settled(transformed)->Err_0,
            ),
    {
        Self::finish(transformed)
    }
}

impl ToLaea for ProjectedMultiPolygon<Epsg4326> {
    type Raw = RawMultiPolygon;

    type Output = Result<ProjectedMultiPolygon<Laea>, ProjectionError>;

    fn laea_reprojection(&self, origin: &ProjectedGeometry<Epsg4326>) -> (r: Result<
        Reprojection<RawMultiPolygon>,
        ProjectionError,
    >)
        ensures
            chain_end(r) == anchored(origin.held()),
            r is Ok ==> r->Ok_0.value == self.raw() && r->Ok_0.chain().len() == 2
                && r->Ok_0.chain()[0] == EPSG_4326@,
    {
        match laea_descriptor(origin) {
            Ok(d) => Ok(reprojection(self.multi_polygon.clone(), EPSG_4326, d.as_str())),
            Err(e) => Err(e),
        }
    }

    fn to_laea(&self, transformed: Result<RawMultiPolygon, TransformFailure>) -> (r: Result<
        ProjectedMultiPolygon<Laea>,
        ProjectionError,
    >)
        ensures
            r is Ok <==> transformed is Ok,
            r is Ok ==> r->Ok_0.raw() == transformed->Ok_0,
            r is Err ==> r == Err::<ProjectedMultiPolygon<Laea>, ProjectionError>(
                settled(transformed)->Err_0,
            ),
    {
        Self::finish(transformed)
    }
}

impl ToLaea for ProjectedMultiPolygon<Epsg3035> {
    type Raw = RawMultiPolygon;

    type Output = Result<ProjectedMultiPolygon<Laea>, ProjectionError>;

    /// The planar coordinates go back to longitude/latitude first, as the
    /// anchor is given in longitude/latitude.
    fn laea_reprojection(&self, origin: &ProjectedGeometry<Epsg4326>) -> (r: Result<
        Reprojection<RawMultiPolygon>,
        ProjectionError,
    >)
        ensures
            chain_end(r) == anchored(origin.held()),
            r is Ok ==> r->Ok_0.value == self.raw() && r->Ok_0.chain().len() == 3
                && r->Ok_0.chain()[0] == EPSG_3035@ && r->Ok_0.chain()[1] == EPSG_4326@,
    {
        match laea_descriptor(origin) {
            Ok(d) => Ok(reprojection_via(self.multi_polygon.clone(), EPSG_3035, EPSG_4326, d.as_str())),
            Err(e) => Err(e),
        }
    }

    fn to_laea(&self, transformed: Result<RawMultiPolygon, TransformFailure>) -> (r: Result<
        ProjectedMultiPolygon<Laea>,
        ProjectionError,
    >)
        ensures
            r is Ok <==> transformed is Ok,
            r is Ok ==> r->Ok_0.raw() == transformed->Ok_0,
            r is Err ==> r == Err::<ProjectedMultiPolygon<Laea>, ProjectionError>(
                settled(transformed)->Err_0,
            ),
    {
        Self::finish(transformed)
    }
}

} // verus!
