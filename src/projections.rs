//! Coordinate reference systems as tags, the conversions between them, and
//! what a conversion can fail with.
use vstd::prelude::*;

use crate::raw::{multi_polygon_centroid_of, polygon_centroid_of, RawMultiPolygon, RawPoint, RawPolygon};
use crate::ProjectedGeometry;

verus! {

/// Identifier of geographic longitude/latitude coordinates.
pub const EPSG_4326: &'static str = "EPSG:4326";

/// Identifier of the fixed planar equal-area system.
pub const EPSG_3035: &'static str = "EPSG:3035";

/// Tag of unprojected longitude/latitude coordinates.
#[derive(Clone, Copy, Debug)]
pub struct Epsg4326;

/// Tag of the fixed planar equal-area system.
#[derive(Clone, Copy, Debug)]
pub struct Epsg3035;

/// Tag of a Lambert azimuthal equal-area system anchored at a point that is
/// chosen per conversion.
#[derive(Clone, Copy, Debug)]
pub struct Laea;

/// Tag of geographic coordinates under their historical misspelt name.
#[derive(Clone, Copy, Debug)]
pub struct Espg4326;

/// The tags that a value can be created in and converted between freely.
pub trait Projectable {}

impl Projectable for Epsg4326 {}

impl Projectable for Epsg3035 {}

/// How the transform engine failed on a requested reprojection.
#[derive(Clone, Copy, Debug, PartialEq, Eq)]
pub enum TransformFailure {
    /// The pair of identifiers did not give a usable transform.
    Construction,
    /// The transform exists but failed on the value.
    Application,
}

/// Why a conversion or a centroid could not be had.
#[derive(Clone, Copy, Debug, PartialEq, Eq)]
pub enum ProjectionError {
    /// The transform engine could not build the transform.
    TransformConstruction,
    /// The transform engine could not apply the transform to the value.
    TransformApplication,
    /// The geometry is of a shape outside point, polygon and multi-polygon.
    UnsupportedGeometryShape,
    /// The geometry has no point to take a centroid of.
    EmptyGeometry,
}

/// The error that reports an engine failure.
pub open spec fn failure_error(f: TransformFailure) -> ProjectionError {
    match f {
        TransformFailure::Construction => ProjectionError::TransformConstruction,
        TransformFailure::Application => ProjectionError::TransformApplication,
    }
}

/// The engine's outcome with a failure turned into this library's error.
pub open spec fn settled<G>(outcome: Result<G, TransformFailure>) -> Result<G, ProjectionError> {
    match outcome {
        Ok(g) => Ok(g),
        Err(f) => Err(failure_error(f)),
    }
}

/// Reports the transform engine's outcome: the value it produced, or the
/// failure of the same kind, never a substitute value.
pub fn transform_outcome<G>(outcome: Result<G, TransformFailure>) -> (r: Result<G, ProjectionError>)
    ensures
        r == settled(outcome),
        outcome == Err::<G, TransformFailure>(TransformFailure::Construction) ==> r
            == Err::<G, ProjectionError>(ProjectionError::TransformConstruction),
        outcome == Err::<G, TransformFailure>(TransformFailure::Application) ==> r
            == Err::<G, ProjectionError>(ProjectionError::TransformApplication),
{
    match outcome {
        Ok(g) => Ok(g),
        Err(TransformFailure::Construction) => Err(ProjectionError::TransformConstruction),
        Err(TransformFailure::Application) => Err(ProjectionError::TransformApplication),
    }
}

/// A reprojection for the transform engine to carry out: `value`, taken
/// through the systems of `crs_chain` in order, each step from one
/// identifier to the next.
#[derive(Debug)]
pub struct Reprojection<G> {
    pub value: G,
    pub crs_chain: Vec<String>,
}

impl<G> Reprojection<G> {
    /// The chain of identifiers as text.
    pub open spec fn chain(&self) -> Seq<Seq<char>> {
        self.crs_chain@.map_values(|s: String| s@)
    }
}

/// A reprojection of `value` from the system `from` straight to `to`.
pub fn reprojection<G>(value: G, from: &str, to: &str) -> (r: Reprojection<G>)
    ensures
        r.value == value,
        r.chain() == seq![from@, to@],
{
    let chain = vec![from.to_owned(), to.to_owned()];
    let r = Reprojection { value, crs_chain: chain };
    assert(r.chain() =~= seq![from@, to@]);
    r
}

/// The last identifier of a reprojection's chain, or the error instead.
pub open spec fn chain_end<G>(r: Result<Reprojection<G>, ProjectionError>) -> Result<
    Seq<char>,
    ProjectionError,
> {
    match r {
        Ok(p) => Ok(p.chain().last()),
        Err(e) => Err(e),
    }
}

/// A reprojection of `value` from the system `from` to `to`, by way of `via`.
pub fn reprojection_via<G>(value: G, from: &str, via: &str, to: &str) -> (r: Reprojection<G>)
    ensures
        r.value == value,
        r.chain() == seq![from@, via@, to@],
{
    let chain = vec![from.to_owned(), via.to_owned(), to.to_owned()];
    let r = Reprojection { value, crs_chain: chain };
    assert(r.chain() =~= seq![from@, via@, to@]);
    r
}

/// Conversion to the unprojected system. The transform engine carries out
/// the reprojection that `epsg_4326_reprojection` asks for; `to_epsg_4326`
/// turns its outcome into the converted value.
pub trait ToEpsg4326 {
    type Raw;

    type Output;

    fn epsg_4326_reprojection(&self) -> Reprojection<Self::Raw>;

    fn to_epsg_4326(&self, transformed: Result<Self::Raw, TransformFailure>) -> Self::Output;
}

/// Conversion to the fixed planar equal-area system, in the same two steps
/// as `ToEpsg4326`.
pub trait ToEpsg3035 {
    type Raw;

    type Output;

    fn epsg_3035_reprojection(&self) -> Reprojection<Self::Raw>;

    fn to_epsg_3035(&self, transformed: Result<Self::Raw, TransformFailure>) -> Self::Output;
}

/// Conversion to an equal-area system anchored at the centroid of `origin`,
/// in the same two steps as `ToEpsg4326`; building the reprojection fails
/// where `origin` has no centroid.
pub trait ToLaea {
    type Raw;

    type Output;

    fn laea_reprojection(&self, origin: &ProjectedGeometry<Epsg4326>) -> Result<
        Reprojection<Self::Raw>,
        ProjectionError,
    >;

    fn to_laea(&self, transformed: Result<Self::Raw, TransformFailure>) -> Self::Output;
}

/// Conversion to the misspelt geographic tag.
pub trait ToEspg4326 {
    fn to_espg_4326(&self) -> crate::ProjectedPoint<Espg4326>;
}

/// A geometry whose centroid can be asked for, whatever its system.
pub trait HasCentroid {
    fn centroid(&self) -> Result<RawPoint, ProjectionError>;
}

impl HasCentroid for RawPoint {
    fn centroid(&self) -> (r: Result<RawPoint, ProjectionError>)
        ensures
            r == Ok::<RawPoint, ProjectionError>(*self),
    {
        Ok(crate::raw::point_centroid(self))
    }
}

/// The centroid that `geo` gives, or `EmptyGeometry` where it gives none.
pub open spec fn centroid_or_empty(c: Option<RawPoint>) -> Result<RawPoint, ProjectionError> {
    match c {
        Some(p) => Ok(p),
        None => Err(ProjectionError::EmptyGeometry),
    }
}

impl HasCentroid for RawPolygon {
    fn centroid(&self) -> (r: Result<RawPoint, ProjectionError>)
        ensures
            r == centroid_or_empty(polygon_centroid_of(*self)),
    {
        match crate::raw::polygon_centroid(self) {
            Some(c) => Ok(c),
            None => Err(ProjectionError::EmptyGeometry),
        }
    }
}

impl HasCentroid for RawMultiPolygon {
    fn centroid(&self) -> (r: Result<RawPoint, ProjectionError>)
        ensures
            r == centroid_or_empty(multi_polygon_centroid_of(*self)),
    {
        match crate::raw::multi_polygon_centroid(self) {
            Some(c) => Ok(c),
            None => Err(ProjectionError::EmptyGeometry),
        }
    }
}

} // verus!

verus! {

/// Converting to the planar system and back asks the engine for the same two
/// systems in reverse order, so the round trip's closeness to the original
/// rests on the engine's two transforms alone.
pub proof fn lemma_round_trip_reverses_chain<G>(there: Reprojection<G>, back: Reprojection<G>)
    requires
        there.chain() == seq![EPSG_4326@, EPSG_3035@],
        back.chain() == seq![EPSG_3035@, EPSG_4326@],
    ensures
        back.chain() == there.chain().reverse(),
{
    assert(back.chain() =~= there.chain().reverse());
}

} // verus!
