//! Geometries tagged at the type level with the coordinate reference system
//! their coordinates are in. A value starts in longitude/latitude and reaches
//! another system only through a conversion that exists for its tag. Each
//! conversion names the reprojection that the transform engine has to carry
//! out, and turns the engine's outcome into a newly tagged value.
mod laea;
mod multipolygon;
mod point;
mod polygon;
mod projected;
mod projections;
mod raw;

pub use laea::{laea_descriptor, lemma_descriptor_names_anchor, make_laea_str};
pub use multipolygon::ProjectedMultiPolygon;
pub use point::ProjectedPoint;
pub use polygon::ProjectedPolygon;
pub use projected::{
    lemma_construction_failure_reported, lemma_conversion_keeps_shape,
    lemma_supported_shapes_have_centroid, ProjectedGeometry,
};
pub use projections::{
    lemma_round_trip_reverses_chain, reprojection, reprojection_via, transform_outcome, Epsg3035,
    Epsg4326, Espg4326, HasCentroid, Laea, Projectable, ProjectionError, Reprojection, ToEpsg3035,
    ToEpsg4326, ToEspg4326, ToLaea, TransformFailure, EPSG_3035, EPSG_4326,
};
pub use raw::{RawGeometry, RawMultiPolygon, RawPoint, RawPolygon, Shape};
