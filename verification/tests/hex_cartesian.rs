use hexgrid::CartesianPoint;
use hexgrid::Direction;
use hexgrid::HexCoord;
use hexgrid::HexCubeCoord;

/// Scale a lattice point into floating-point rendering space:
/// `x` in quarter units, `y` in units of `sqrt(3)/4`.
fn to_f64(p: CartesianPoint) -> (f64, f64) {
    let unit_y: f64 = 0.25 * f64::sqrt(3.0);
    (p.x_quarters as f64 * 0.25, p.y_sqrt3_quarters as f64 * unit_y)
}

fn approx_eq(x0: f64, x: f64) -> bool {
    (x0 - x).abs() < 0.001
}

#[test]
fn test_cartesian_center() {
    assert_eq!((0.0, 0.0), to_f64(HexCoord::new(0, 0).cartesian_center()));

    let ys = 0.25 * f64::sqrt(3.0);
    let yl = 2.0 * ys;
    let xs = 0.75f64;
    let centers = [
        ((1, 1), (xs, ys)),
        ((0, 1), (0.0, yl)),
        ((-1, 0), (-xs, ys)),
        ((-1, -1), (-xs, -ys)),
        ((0, -1), (0.0, -yl)),
        ((1, 0), (xs, -ys)),
    ];
    for &((q, r), (xt, yt)) in &centers {
        let (x, y) = to_f64(HexCoord::new(q, r).cartesian_center());
        assert!(approx_eq(x, xt));
        assert!(approx_eq(y, yt));
    }

    let (x, y) = to_f64(HexCoord::new(1, 2).cartesian_center());
    assert!(approx_eq(x, 0.75));
    assert!(approx_eq(y, 0.75 * f64::sqrt(3.0)));
}

fn check_corners(corners: HexCoord, tcorners: [(f64, f64); 6]) {
    let ccs = corners.cartesian_corners();
    let iter = tcorners.iter().copied();
    let citer = ccs.iter().copied();
    for ((x, y), cc) in iter.zip(citer) {
        let (cx, cy) = to_f64(cc);
        assert!(approx_eq(x, cx));
        assert!(approx_eq(y, cy));
    }
}

#[test]
fn test_cartesian_corners() {
    let cy: f64 = 0.25 * f64::sqrt(3.0);

    let start = HexCoord::new(0, 0);
    let tcorners = [
        (0.5, 0.0),
        (0.25, cy),
        (-0.25, cy),
        (-0.5, 0.0),
        (-0.25, -cy),
        (0.25, -cy),
    ];
    check_corners(start, tcorners);

    let target = start.neighbor(Direction::NE);
    let tcorners = [
        (1.25, cy),
        (1.0, 2.0 * cy),
        (0.5, 2.0 * cy),
        (0.25, cy),
        (0.5, 0.0),
        (1.0, 0.0),
    ];
    check_corners(target, tcorners);
}

#[test]
fn test_cartesian_center_origin_exact() {
    let p = HexCoord::new(0, 0).cartesian_center();
    assert_eq!(p.x_quarters, 0);
    assert_eq!(p.y_sqrt3_quarters, 0);
}

#[test]
fn test_cartesian_corners_origin_exact() {
    let cs = HexCoord::new(0, 0).cartesian_corners();
    let expected = [(2, 0), (1, 1), (-1, 1), (-2, 0), (-1, -1), (1, -1)];
    for (c, &(x, y)) in cs.iter().zip(expected.iter()) {
        assert_eq!(c.x_quarters, x);
        assert_eq!(c.y_sqrt3_quarters, y);
    }
}

#[test]
fn test_cartesian_cube_delegates() {
    let a = HexCoord::new(2, -1);
    let c = HexCubeCoord::from_axial(a);
    assert_eq!(a.cartesian_center(), c.cartesian_center());
    assert_eq!(a.cartesian_corners(), c.cartesian_corners());
}
