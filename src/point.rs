use vstd::prelude::*;

use crate::laea::{anchored, laea_descriptor};
use crate::projected::ProjectedGeometry;
use crate::projections::{
    chain_end, reprojection, reprojection_via, settled, transform_outcome, Epsg3035, Epsg4326, Laea,
    ProjectionError, Reprojection, ToEpsg3035, ToEpsg4326, ToLaea, TransformFailure, EPSG_3035,
    EPSG_4326,
};
use crate::raw::{RawPoint, Shape};

verus! {

/// A point tagged with the system its coordinates are in.
#[derive(Debug)]
pub struct ProjectedPoint<Projection> {
    point: RawPoint,
    _marker: core::marker::PhantomData<Projection>,
}

impl<Projection> ProjectedPoint<Projection> {
    /// The point inside.
    pub closed spec fn raw(&self) -> RawPoint {
        self.point
    }

    /// A point tagged with `Projection`; only this module's conversions reach
    /// a tag other than `Epsg4326`.
    fn tagged(point: RawPoint) -> (r: Self)
        ensures
            r.raw() == point,
    {
        ProjectedPoint { point, _marker: core::marker::PhantomData }
    }

    /// The raw value inside, for reading.
    pub fn point(&self) -> (r: &RawPoint)
        ensures
            *r == self.raw(),
    {
        &self.point
    }

    /// The point as a geometry of point shape.
    pub fn into_shape(self) -> (r: Shape)
        ensures
            r == Shape::Point(self.raw()),
    {
        Shape::Point(self.point)
    }

    /// Turns the engine's outcome into a point tagged `Target`.
    fn finish<Target>(transformed: Result<RawPoint, TransformFailure>) -> (r: Result<
        ProjectedPoint<Target>,
        ProjectionError,
    >)
        ensures
            r is Ok <==> transformed is Ok,
            r is Ok ==> r->Ok_0.raw() == transformed->Ok_0,
            r is Err ==> r == Err::<ProjectedPoint<Target>, ProjectionError>(
                settled(transformed)->Err_0,
            ),
    {
        match transform_outcome(transformed) {
            Ok(p) => Ok(ProjectedPoint::tagged(p)),
            Err(e) => Err(e),
        }
    }
}

impl<Projection> Clone for ProjectedPoint<Projection> {
    fn clone(&self) -> (r: Self)
        ensures
            r.raw() == self.raw(),
    {
        ProjectedPoint::tagged(self.point.clone())
    }
}

impl ProjectedPoint<Epsg4326> {
    /// A point in longitude/latitude, where every point starts.
    pub fn new(point: RawPoint) -> (r: ProjectedPoint<Epsg4326>)
        ensures
            r.raw() == point,
    {
        ProjectedPoint { point, _marker: core::marker::PhantomData }
    }
}

impl ToEpsg3035 for ProjectedPoint<Epsg4326> {
    type Raw = RawPoint;

    type Output = Result<ProjectedPoint<Epsg3035>, ProjectionError>;

    fn epsg_3035_reprojection(&self) -> (r: Reprojection<RawPoint>)
        ensures
            r.value == self.raw(),
            r.chain() == seq![EPSG_4326@, EPSG_3035@],
    {
        reprojection(self.point.clone(), EPSG_4326, EPSG_3035)
    }

    fn to_epsg_3035(&self, transformed: Result<RawPoint, TransformFailure>) -> (r: Result<
        ProjectedPoint<Epsg3035>,
        ProjectionError,
    >)
        ensures
            r is Ok <==> transformed is Ok,
            r is Ok ==> r->Ok_0.raw() == transformed->Ok_0,
            r is Err ==> r == Err::<ProjectedPoint<Epsg3035>, ProjectionError>(
                settled(transformed)->Err_0,
            ),
    {
        Self::finish(transformed)
    }
}

impl ToEpsg4326 for ProjectedPoint<Epsg3035> {
    type Raw = RawPoint;

    type Output = Result<ProjectedPoint<Epsg4326>, ProjectionError>;

    fn epsg_4326_reprojection(&self) -> (r: Reprojection<RawPoint>)
        ensures
            r.value == self.raw(),
            r.chain() == seq![EPSG_3035@, EPSG_4326@],
    {
        reprojection(self.point.clone(), EPSG_3035, EPSG_4326)
    }

    fn to_epsg_4326(&self, transformed: Result<RawPoint, TransformFailure>) -> (r: Result<
        ProjectedPoint<Epsg4326>,
        ProjectionError,
    >)
        ensures
            r is Ok <==> transformed is Ok,
            r is Ok ==> r->Ok_0.raw() == transformed->Ok_0,
            r is Err ==> r == Err::<ProjectedPoint<Epsg4326>, ProjectionError>(
                settled(transformed)->Err_0,
            ),
    {
        Self::finish(transformed)
    }
}

impl ToLaea for ProjectedPoint<Epsg4326> {
    type Raw = RawPoint;

    type Output = Result<ProjectedPoint<Laea>, ProjectionError>;

    fn laea_reprojection(&self, origin: &ProjectedGeometry<Epsg4326>) -> (r: Result<
        Reprojection<RawPoint>,
        ProjectionError,
    >)
        ensures
            chain_end(r) == anchored(origin.held()),
            r is Ok ==> r->Ok_0.value == self.raw() && r->Ok_0.chain().len() == 2
                && r->Ok_0.chain()[0] == EPSG_4326@,
    {
        match laea_descriptor(origin) {
            Ok(d) => Ok(reprojection(self.point.clone(), EPSG_4326, d.as_str())),
            Err(e) => Err(e),
        }
    }

    fn to_laea(&self, transformed: Result<RawPoint, TransformFailure>) -> (r: Result<
        ProjectedPoint<Laea>,
        ProjectionError,
    >)
        ensures
            r is Ok <==> transformed is Ok,
            r is Ok ==> r->Ok_0.raw() == transformed->Ok_0,
            r is Err ==> r == Err::<ProjectedPoint<Laea>, ProjectionError>(
                settled(transformed)->Err_0,
            ),
    {
        Self::finish(transformed)
    }
}

impl ToLaea for ProjectedPoint<Epsg3035> {
    type Raw = RawPoint;

    type Output = Result<ProjectedPoint<Laea>, ProjectionError>;

    /// The planar coordinates go back to longitude/latitude first, as the
    /// anchor is given in longitude/latitude.
    fn laea_reprojection(&self, origin: &ProjectedGeometry<Epsg4326>) -> (r: Result<
        Reprojection<RawPoint>,
        ProjectionError,
    >)
        ensures
            chain_end(r) == anchored(origin.held()),
            r is Ok ==> r->Ok_0.value == self.raw() && r->Ok_0.chain().len() == 3
                && r->Ok_0.chain()[0] == EPSG_3035@ && r->Ok_0.chain()[1] == EPSG_4326@,
    {
        match laea_descriptor(origin) {
            Ok(d) => Ok(reprojection_via(self.point.clone(), EPSG_3035, EPSG_4326, d.as_str())),
            Err(e) => Err(e),
        }
    }

    fn to_laea(&self, transformed: Result<RawPoint, TransformFailure>) -> (r: Result<
        ProjectedPoint<Laea>,
        ProjectionError,
    >)
        ensures
            r is Ok <==> transformed is Ok,
            r is Ok ==> r->Ok_0.raw() == transformed->Ok_0,
            r is Err ==> r == Err::<ProjectedPoint<Laea>, ProjectionError>(
                settled(transformed)->Err_0,
            ),
    {
        Self::finish(transformed)
    }
}

} // verus!
