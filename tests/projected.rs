use geo::{Coord, Geometry, LineString, MultiPolygon, Point, Polygon};
use projected::{
    laea_descriptor, make_laea_str, transform_outcome, Epsg3035, Epsg4326, HasCentroid,
    ProjectedGeometry, ProjectedPoint, ProjectedPolygon, ProjectionError, RawGeometry, RawPoint,
    RawPolygon, Shape, ToEpsg3035, ToLaea, TransformFailure,
};

/// EPSG:3035 coordinates of the longitude/latitude pairs used below, to the
/// centimetre, as the transform engine gives them.
fn epsg_3035_of(c: Coord) -> Coord {
    let table = [
        ((2.0, 2.1), (3341966.36, -2107030.80)),
        ((-111.0, 45.0), (-427501.49, 8854531.14)),
        ((-111.0, 41.0), (-854404.90, 8877335.65)),
        ((-104.0, 41.0), (-1088539.00, 8264083.88)),
        ((-104.0, 45.0), (-651989.13, 8293178.36)),
        ((181.2, 51.79), (5089521.81, 11030763.15)),
    ];
    for ((x, y), (e, n)) in table {
        if c.x == x && c.y == y {
            return Coord { x: e, y: n };
        }
    }
    panic!("no EPSG:3035 coordinates for {:?}", c)
}

fn poly_3035(p: &Polygon) -> Polygon {
    let coords: Vec<Coord> = p.exterior().coords().map(|c| epsg_3035_of(*c)).collect();
    Polygon::new(LineString::from(coords), vec![])
}

/// The engine's EPSG:4326 to EPSG:3035 result for a shape.
fn engine_3035(shape: &Shape) -> Result<Shape, TransformFailure> {
    match shape {
        Shape::Point(p) => Ok(Shape::Point(RawPoint(Point::from(epsg_3035_of(p.0 .0))))),
        Shape::Polygon(p) => Ok(Shape::Polygon(RawPolygon(poly_3035(&p.0)))),
        Shape::MultiPolygon(p) => Ok(Shape::MultiPolygon(projected::RawMultiPolygon(
            MultiPolygon::new(p.0 .0.iter().map(poly_3035).collect()),
        ))),
        Shape::Unsupported(_) => Err(TransformFailure::Construction),
    }
}

fn convert(g: &ProjectedGeometry<Epsg4326>) -> ProjectedGeometry<Epsg3035> {
    let request = g.epsg_3035_reprojection();
    g.to_epsg_3035(engine_3035(&request.value)).unwrap()
}

fn point() -> Geometry {
    Point::new(-111., 45.).into()
}

fn raw_poly() -> Polygon {
    Polygon::new(
        LineString::from(vec![(-111., 45.), (-111., 41.), (-104., 41.), (-104., 45.)]),
        vec![],
    )
}

fn poly() -> Geometry {
    raw_poly().into()
}

fn multipoly() -> Geometry {
    MultiPolygon::new([raw_poly()].to_vec()).into()
}

#[test]
fn projected_change_when_converted() {
    let geom = point();
    let projectable = ProjectedGeometry::new(RawGeometry(geom));
    let projected = convert(&projectable);
    assert_ne!(projectable.geometry(), projected.geometry());

    let geom = poly();
    let projectable = ProjectedGeometry::new(RawGeometry(geom));
    let projected = convert(&projectable);
    assert_ne!(projectable.geometry(), projected.geometry());

    let geom = multipoly();
    let projectable = ProjectedGeometry::new(RawGeometry(geom));
    let projected = convert(&projectable);
    assert_ne!(projectable.geometry(), projected.geometry());
}

#[test]
fn does_not_change_enum_variant() {
    let geom = point();
    let projectable = ProjectedGeometry::new(RawGeometry(geom));
    let projected = convert(&projectable);
    assert!(matches!(projected.geometry().0, Geometry::Point(_)));

    let geom = poly();
    let projectable = ProjectedGeometry::new(RawGeometry(geom));
    let projected = convert(&projectable);
    assert!(matches!(projected.geometry().0, Geometry::Polygon(_)));

    let geom = multipoly();
    let projectable = ProjectedGeometry::new(RawGeometry(geom));
    let projected = convert(&projectable);
    assert!(matches!(projected.geometry().0, Geometry::MultiPolygon(_)));
}

#[test]
fn multipolygon_stays_multipolygon_when_planar() {
    let projectable = ProjectedGeometry::new(RawGeometry(multipoly()));
    let projected = convert(&projectable);
    assert!(matches!(projected.shape(), Shape::MultiPolygon(_)));
    assert!(matches!(projected.geometry().0, Geometry::MultiPolygon(_)));
}

#[test]
fn geometry_survives_the_shape_split() {
    let g = poly();
    assert_eq!(ProjectedGeometry::new(RawGeometry(g.clone())).geometry(), RawGeometry(g));
    assert!(matches!(
        ProjectedGeometry::new(RawGeometry(poly())).shape(),
        Shape::Polygon(_)
    ));
}

#[test]
fn engine_changing_the_shape_is_an_application_failure() {
    let projectable = ProjectedGeometry::new(RawGeometry(poly()));
    let wrong = Ok(Shape::Point(RawPoint(Point::new(1.0, 1.0))));
    assert_eq!(
        projectable.to_epsg_3035(wrong).unwrap_err(),
        ProjectionError::TransformApplication
    );
}

#[test]
fn malformed_identifier_is_a_construction_failure() {
    let projectable = ProjectedGeometry::new(RawGeometry(point()));
    assert_eq!(
        projectable.to_epsg_3035(Err(TransformFailure::Construction)).unwrap_err(),
        ProjectionError::TransformConstruction
    );
    assert_eq!(
        transform_outcome::<u8>(Err(TransformFailure::Construction)),
        Err(ProjectionError::TransformConstruction)
    );
    assert_eq!(transform_outcome::<u8>(Ok(7)), Ok(7));
}

#[test]
fn unsupported_shape_is_reported() {
    let line: Geometry = LineString::from(vec![(0.0, 0.0), (1.0, 1.0)]).into();
    let projectable = ProjectedGeometry::new(RawGeometry(line.clone()));
    assert!(matches!(projectable.shape(), Shape::Unsupported(_)));
    assert_eq!(projectable.geometry(), RawGeometry(line));
    let outcome = Ok(Shape::Point(RawPoint(Point::new(1.0, 1.0))));
    assert_eq!(
        projectable.to_epsg_3035(outcome).unwrap_err(),
        ProjectionError::UnsupportedGeometryShape
    );
    assert_eq!(
        projectable.centroid().unwrap_err(),
        ProjectionError::UnsupportedGeometryShape
    );
}

#[test]
fn centroid_of_every_supported_shape() {
    let c = ProjectedGeometry::new(RawGeometry(point())).centroid().unwrap();
    assert_eq!(c, RawPoint(Point::new(-111., 45.)));
    let c = ProjectedGeometry::new(RawGeometry(poly())).centroid().unwrap();
    assert_eq!(c, RawPoint(Point::new(-107.5, 43.)));
    let c = ProjectedGeometry::new(RawGeometry(multipoly())).centroid().unwrap();
    assert_eq!(c, RawPoint(Point::new(-107.5, 43.)));
    let planar = convert(&ProjectedGeometry::new(RawGeometry(poly())));
    assert!(planar.centroid().is_ok());
}

#[test]
fn centroid_of_empty_polygon_is_an_error() {
    let empty = RawPolygon(Polygon::new(LineString::new(vec![]), vec![]));
    assert_eq!(empty.centroid().unwrap_err(), ProjectionError::EmptyGeometry);
}

#[test]
fn laea_descriptor_text() {
    assert_eq!(
        make_laea_str("43", "-111"),
        "+proj=laea +lat_0=43 +lon_0=-111 +x_0=0 +y_0=0 +ellps=WGS84 +units=m +no_defs"
    );
}

#[test]
fn laea_descriptor_names_the_centroid() {
    let origin = ProjectedGeometry::new(RawGeometry(Point::new(-111.0, 43.0).into()));
    let d = laea_descriptor(&origin).unwrap();
    assert!(d.contains("lat_0=43 "));
    assert!(d.contains("lon_0=-111 "));
    let square = ProjectedGeometry::new(RawGeometry(poly()));
    let d = laea_descriptor(&square).unwrap();
    assert!(d.contains("+lat_0=43 +lon_0=-107.5 "));
}

#[test]
fn polygon_to_laea_in_both_systems() {
    let origin = ProjectedGeometry::new(RawGeometry(Point::new(-111.0, 43.0).into()));
    let p = ProjectedPolygon::new(RawPolygon(raw_poly()));
    let request = p.laea_reprojection(&origin).unwrap();
    assert_eq!(request.crs_chain.len(), 2);
    assert_eq!(request.crs_chain[0], "EPSG:4326");
    assert!(request.crs_chain[1].starts_with("+proj=laea +lat_0=43 +lon_0=-111 "));
    let moved = RawPolygon(poly_3035(&raw_poly()));
    let projected = p.to_laea(Ok(moved.clone())).unwrap();
    assert_ne!(p.polygon(), projected.polygon());
    assert_eq!(projected.polygon(), &moved);

    let planar = p.to_epsg_3035(Ok(moved.clone())).unwrap();
    let request = planar.laea_reprojection(&origin).unwrap();
    assert_eq!(request.crs_chain.len(), 3);
    assert_eq!(request.crs_chain[0], "EPSG:3035");
    assert_eq!(request.crs_chain[1], "EPSG:4326");
    let line: Geometry = LineString::from(vec![(0.0, 0.0), (1.0, 1.0)]).into();
    let bad_origin = ProjectedGeometry::new(RawGeometry(line));
    assert_eq!(
        planar.laea_reprojection(&bad_origin).unwrap_err(),
        ProjectionError::UnsupportedGeometryShape
    );
}

#[test]
fn enable_typed_function_args() {
    fn covert_to_3035(p: ProjectedPoint<Epsg4326>) -> ProjectedPoint<Epsg3035> {
        let request = p.epsg_3035_reprojection();
        let engine = Ok(RawPoint(Point::from(epsg_3035_of(request.value.0 .0))));
        p.to_epsg_3035(engine).unwrap()
    }
    let p = Point::new(181.2, 51.79);
    let p = ProjectedPoint::new(RawPoint(p));
    let _projected = covert_to_3035(p);
}

#[test]
fn geometry_to_laea_keeps_shape() {
    let origin = ProjectedGeometry::new(RawGeometry(Point::new(-111.0, 43.0).into()));
    let g = ProjectedGeometry::new(RawGeometry(multipoly()));
    let request = g.laea_reprojection(&origin).unwrap();
    assert_eq!(request.crs_chain[0], "EPSG:4326");
    assert!(request.crs_chain[1].starts_with("+proj=laea +lat_0=43 +lon_0=-111 "));
    let moved = engine_3035(&request.value);
    let projected = g.to_laea(moved).unwrap();
    assert!(matches!(projected.shape(), Shape::MultiPolygon(_)));

    let planar = convert(&g);
    let request = planar.laea_reprojection(&origin).unwrap();
    assert_eq!(request.crs_chain.len(), 3);
    assert_eq!(request.crs_chain[1], "EPSG:4326");
}
